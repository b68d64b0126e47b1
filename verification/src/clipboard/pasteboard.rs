//! Files of a remote clipboard on the pasteboard, each behind a placeholder file
//! that is replaced when it is pasted.
use crate::clipboard::messages::{
    ClipboardFile, FILECONTENTS_FORMAT_NAME, FILEDESCRIPTORW_FORMAT_NAME,
};
use crate::text::{same_text, starts_with};
use vstd::prelude::*;

verus! {

/// How the names of placeholders begin.
pub const TEMP_FILE_PREFIX: &'static str = ".rustdesk_";

/// How often the pasteboard is looked at while files are on it, in milliseconds.
pub const CLIPBOARD_CHECK_INTERVAL_MS: u64 = 300;

/// How many placeholders may not be left behind before files are refused.
pub const TEMP_FILE_LIMIT: usize = 3;

/// Files that were put on the pasteboard.
#[derive(Debug)]
pub struct PasteObserverInfo {
    pub file_descriptor_id: i32,
    pub conn_id: i32,
    /// The placeholder, once there is one.
    pub source_path: String,
    /// Where the placeholder was pasted.
    pub target_path: String,
    /// How often the pasteboard had changed by then.
    pub pasteboard_change_count: i64,
}

/// The view of files on the pasteboard.
#[verifier::ext_equal]
pub struct InfoView {
    pub file_descriptor_id: i32,
    pub conn_id: i32,
    pub source_path: Seq<char>,
    pub target_path: Seq<char>,
    pub pasteboard_change_count: i64,
}

impl PasteObserverInfo {
    pub open spec fn view(self) -> InfoView {
        InfoView {
            file_descriptor_id: self.file_descriptor_id,
            conn_id: self.conn_id,
            source_path: self.source_path@,
            target_path: self.target_path@,
            pasteboard_change_count: self.pasteboard_change_count,
        }
    }

    /// The value that ends the observer.
    pub open spec fn is_exit_msg(self) -> bool {
        &&& self.file_descriptor_id == 0
        &&& self.conn_id == 0
        &&& self.source_path@.len() == 0
        &&& self.target_path@.len() == 0
        &&& self.pasteboard_change_count == 0
    }

    /// The value that ends the observer.
    pub fn exit_msg() -> (r: PasteObserverInfo)
        ensures
            r.is_exit_msg(),
    {
        PasteObserverInfo {
            file_descriptor_id: 0,
            conn_id: 0,
            source_path: String::new(),
            target_path: String::new(),
            pasteboard_change_count: 0,
        }
    }

    /// Files that were just put on the pasteboard, without a placeholder yet.
    pub fn offered(conn_id: i32, file_descriptor_id: i32, change_count: i64) -> (r:
        PasteObserverInfo)
        ensures
            r@ == (InfoView {
                file_descriptor_id,
                conn_id,
                source_path: Seq::empty(),
                target_path: Seq::empty(),
                pasteboard_change_count: change_count,
            }),
    {
        let info = PasteObserverInfo {
            file_descriptor_id,
            conn_id,
            source_path: String::new(),
            target_path: String::new(),
            pasteboard_change_count: change_count,
        };
        assert(info.source_path@ =~= Seq::<char>::empty());
        assert(info.target_path@ =~= Seq::<char>::empty());
        info
    }

    /// Another value of the same files.
    pub fn duplicate(&self) -> (r: PasteObserverInfo)
        ensures
            r@ == self@,
    {
        PasteObserverInfo {
            file_descriptor_id: self.file_descriptor_id,
            conn_id: self.conn_id,
            source_path: self.source_path.clone(),
            target_path: self.target_path.clone(),
            pasteboard_change_count: self.pasteboard_change_count,
        }
    }

    /// Whether this value ends the observer.
    pub fn ends_observer(&self) -> (r: bool)
        ensures
            r == self.is_exit_msg(),
    {
        self.file_descriptor_id == 0 && self.conn_id == 0 && self.source_path.as_str().is_empty()
            && self.target_path.as_str().is_empty() && self.pasteboard_change_count == 0
    }
}

/// The view of optional files.
pub open spec fn info_view(info: Option<PasteObserverInfo>) -> Option<InfoView> {
    match info {
        Some(i) => Some(i@),
        None => None,
    }
}

/// What the observer does with what the provider of placeholders tells.
#[derive(Debug)]
pub enum ObserverStep {
    /// Hand the files on to the keeper of placeholders.
    Forward(PasteObserverInfo),
    Ignore,
    Exit,
}

/// What the observer does with what the provider of placeholders tells. `told` is
/// nothing once the provider is gone.
pub fn observer_step(told: Option<Result<PasteObserverInfo, String>>) -> (r: ObserverStep)
    ensures
        match told {
            None => r is Exit,
            Some(Err(_)) => r is Ignore,
            Some(Ok(info)) => if info.is_exit_msg() {
                r is Exit
            } else {
                r == ObserverStep::Forward(info)
            },
        },
{
    match told {
        None => ObserverStep::Exit,
        Some(Err(_)) => ObserverStep::Ignore,
        Some(Ok(info)) => {
            if info.ends_observer() {
                ObserverStep::Exit
            } else {
                ObserverStep::Forward(info)
            }
        },
    }
}

/// What the keeper of placeholders learns.
#[derive(Debug)]
pub enum KeeperEvent {
    /// Files were put on the pasteboard, or got their placeholder.
    Offer(PasteObserverInfo),
    /// The files of a connection are to go, or those of any connection.
    Clear(i32),
    /// Nothing happened for a while.
    Timeout,
    /// Nobody is left who could tell anything.
    Disconnected,
}

/// What the keeper of placeholders does.
#[derive(Debug)]
pub enum KeeperAction {
    RemovePlaceholder(String),
    /// Watch for the placeholder being pasted.
    StartObserver,
    StopObserver,
    /// Clear the pasteboard if it has changed this often, and no more.
    ClearPasteboard(i64),
}

/// The view of what the keeper does.
pub enum KeeperActionView {
    RemovePlaceholder(Seq<char>),
    StartObserver,
    StopObserver,
    ClearPasteboard(i64),
}

impl KeeperAction {
    pub open spec fn view(self) -> KeeperActionView {
        match self {
            KeeperAction::RemovePlaceholder(path) => KeeperActionView::RemovePlaceholder(path@),
            KeeperAction::StartObserver => KeeperActionView::StartObserver,
            KeeperAction::StopObserver => KeeperActionView::StopObserver,
            KeeperAction::ClearPasteboard(count) => KeeperActionView::ClearPasteboard(count),
        }
    }
}

/// The views of a list of actions.
pub open spec fn keeper_views(list: Seq<KeeperAction>) -> Seq<KeeperActionView> {
    list.map_values(|a: KeeperAction| a.view())
}

/// Files of a connection are meant.
pub open spec fn concerns(info: InfoView, conn_id: i32) -> bool {
    conn_id == 0 || info.conn_id == conn_id
}

/// The placeholder is removed, if there is one.
pub open spec fn removal(path: Seq<char>) -> Seq<KeeperActionView> {
    if path.len() == 0 {
        Seq::empty()
    } else {
        seq![KeeperActionView::RemovePlaceholder(path)]
    }
}

/// Files leave the pasteboard, if they are still on it, and their placeholder
/// goes.
pub open spec fn release(info: InfoView) -> Seq<KeeperActionView> {
    seq![
        KeeperActionView::ClearPasteboard(info.pasteboard_change_count),
        KeeperActionView::StopObserver,
    ] + removal(info.source_path)
}

/// The files that the keeper knows after it is told of some: a report of the same
/// files without a placeholder changes nothing.
pub open spec fn keeps_previous(current: Option<InfoView>, info: InfoView) -> bool {
    current matches Some(previous) && previous.pasteboard_change_count
        == info.pasteboard_change_count && info.source_path.len() == 0
}

/// What becomes of the files that the keeper knows.
pub open spec fn kept_after(
    current: Option<InfoView>,
    event: KeeperEvent,
    change_count: i64,
) -> Option<InfoView> {
    match event {
        KeeperEvent::Offer(info) => if info.pasteboard_change_count != change_count
            || keeps_previous(current, info@) {
            current
        } else {
            Some(info@)
        },
        KeeperEvent::Clear(conn_id) => match current {
            Some(c) if concerns(c, conn_id) => None,
            _ => current,
        },
        KeeperEvent::Timeout => match current {
            Some(c) if c.pasteboard_change_count != change_count => None,
            _ => current,
        },
        KeeperEvent::Disconnected => None,
    }
}

/// What the keeper does.
pub open spec fn actions_after(
    current: Option<InfoView>,
    event: KeeperEvent,
    change_count: i64,
) -> Seq<KeeperActionView> {
    match event {
        KeeperEvent::Offer(info) => if info.pasteboard_change_count != change_count {
            removal(info.source_path@)
        } else if keeps_previous(current, info@) {
            Seq::empty()
        } else {
            let replaced = match current {
                Some(previous) if previous.source_path != info.source_path@ => removal(
                    previous.source_path,
                ),
                _ => Seq::empty(),
            };
            replaced.push(KeeperActionView::StartObserver)
        },
        _ => match current {
            Some(c) if kept_after(current, event, change_count) is None => release(c),
            _ => Seq::empty(),
        },
    }
}

/// Keeps track of the files on the pasteboard and of their placeholder.
#[derive(Debug)]
pub struct PlaceholderKeeper {
    pub current: Option<PasteObserverInfo>,
}

fn removal_actions(path: String) -> (r: Vec<KeeperAction>)
    ensures
        keeper_views(r@) == removal(path@),
{
    let mut actions: Vec<KeeperAction> = Vec::new();
    if !path.as_str().is_empty() {
        actions.push(KeeperAction::RemovePlaceholder(path));
    }
    assert(keeper_views(actions@) =~= removal(path@));
    actions
}

impl PlaceholderKeeper {
    /// A keeper that knows of no files.
    pub fn new() -> (r: PlaceholderKeeper)
        ensures
            r.current is None,
    {
        PlaceholderKeeper { current: None }
    }

    /// Whether the keeper looks at the pasteboard from time to time.
    pub fn looks_at_pasteboard(&self) -> (r: bool)
        ensures
            r == (self.current is Some),
    {
        self.current.is_some()
    }

    /// Takes what the keeper learns, with the number of the pasteboard's changes,
    /// and says what it does.
    pub fn remove_file(&mut self, event: KeeperEvent, change_count: i64) -> (r: Vec<KeeperAction>)
        ensures
            info_view(final(self).current) == kept_after(
                info_view(old(self).current),
                event,
                change_count,
            ),
            keeper_views(r@) == actions_after(info_view(old(self).current), event, change_count),
    {
        let ghost before = info_view(self.current);
        let clear: bool = match event {
            KeeperEvent::Offer(info) => {
                if info.pasteboard_change_count != change_count {
                    return removal_actions(info.source_path);
                }
                return self.set_clipboard_file(info);
            },
            KeeperEvent::Clear(conn_id) => match &self.current {
                Some(info) => conn_id == 0 || info.conn_id == conn_id,
                None => false,
            },
            KeeperEvent::Timeout => match &self.current {
                Some(info) => info.pasteboard_change_count != change_count,
                None => false,
            },
            KeeperEvent::Disconnected => true,
        };
        let mut actions: Vec<KeeperAction> = Vec::new();
        if clear {
            let mut current: Option<PasteObserverInfo> = None;
            std::mem::swap(&mut current, &mut self.current);
            if let Some(info) = current {
                actions.push(KeeperAction::ClearPasteboard(info.pasteboard_change_count));
                actions.push(KeeperAction::StopObserver);
                if !info.source_path.as_str().is_empty() {
                    actions.push(KeeperAction::RemovePlaceholder(info.source_path));
                }
                assert(keeper_views(actions@) =~= release(info@));
                return actions;
            }
        }
        assert(keeper_views(actions@) =~= Seq::<KeeperActionView>::empty());
        actions
    }

    /// Takes files that stand on the pasteboard now.
    fn set_clipboard_file(&mut self, info: PasteObserverInfo) -> (r: Vec<KeeperAction>)
        ensures
            info_view(final(self).current) == kept_after(
                info_view(old(self).current),
                KeeperEvent::Offer(info),
                info.pasteboard_change_count,
            ),
            keeper_views(r@) == actions_after(
                info_view(old(self).current),
                KeeperEvent::Offer(info),
                info.pasteboard_change_count,
            ),
    {
        let ghost given = info@;
        let mut actions: Vec<KeeperAction> = Vec::new();
        assert(keeper_views(actions@) =~= Seq::<KeeperActionView>::empty());
        let mut current: Option<PasteObserverInfo> = None;
        std::mem::swap(&mut current, &mut self.current);
        if let Some(previous) = current {
            if previous.pasteboard_change_count == info.pasteboard_change_count
                && info.source_path.as_str().is_empty() {
                self.current = Some(previous);
                return actions;
            }
            if !same_text(previous.source_path.as_str(), info.source_path.as_str()) {
                actions = removal_actions(previous.source_path);
            }
        }
        let ghost done = keeper_views(actions@);
        actions.push(KeeperAction::StartObserver);
        assert(keeper_views(actions@) =~= done.push(KeeperActionView::StartObserver));
        self.current = Some(info);
        actions
    }
}

/// However long files stay on the pasteboard, their placeholder stays too.
pub proof fn law_placeholder_does_not_expire(current: Option<InfoView>, change_count: i64)
    requires
        current matches Some(info) ==> info.pasteboard_change_count == change_count,
    ensures
        kept_after(current, KeeperEvent::Timeout, change_count) == current,
        actions_after(current, KeeperEvent::Timeout, change_count) == Seq::<
            KeeperActionView,
        >::empty(),
{
}

/// No placeholder is left behind: where the keeper no longer knows one, it has
/// asked for its removal.
pub proof fn law_no_placeholder_is_forgotten(
    current: Option<InfoView>,
    event: KeeperEvent,
    change_count: i64,
)
    requires
        current is Some,
        (current->0).source_path.len() > 0,
    ensures
        match kept_after(current, event, change_count) {
            Some(next) => next.source_path == (current->0).source_path,
            None => false,
        } || actions_after(current, event, change_count).contains(
            KeeperActionView::RemovePlaceholder((current->0).source_path),
        ),
{
    let wanted = KeeperActionView::RemovePlaceholder((current->0).source_path);
    let actions = actions_after(current, event, change_count);
    match event {
        KeeperEvent::Offer(info) => {
            if info.pasteboard_change_count == change_count && !keeps_previous(current, info@)
                && (current->0).source_path != info.source_path@ {
                assert(actions[0] == wanted);
            }
        },
        _ => {
            if kept_after(current, event, change_count) is None {
                assert(actions[2] == wanted);
            }
        },
    }
}

/// What another program put on the pasteboard is not cleared: the keeper clears
/// it only if it still holds the files that the keeper knows.
pub proof fn law_replacement_is_not_cleared(
    current: Option<InfoView>,
    event: KeeperEvent,
    change_count: i64,
    count: i64,
)
    requires
        actions_after(current, event, change_count).contains(
            KeeperActionView::ClearPasteboard(count),
        ),
    ensures
        current matches Some(info) && info.pasteboard_change_count == count,
{
    let actions = actions_after(current, event, change_count);
    let i = choose|i: int|
        0 <= i < actions.len() && actions[i] == KeeperActionView::ClearPasteboard(count);
    assert(actions[i] == KeeperActionView::ClearPasteboard(count));
}

/// Files that stand on the pasteboard are what the keeper knows next, and the last
/// thing that it does is to watch them. Only a report without a placeholder of files
/// that the keeper knows already changes nothing.
pub proof fn law_offered_files_are_watched(
    current: Option<InfoView>,
    info: PasteObserverInfo,
    change_count: i64,
)
    requires
        info.pasteboard_change_count == change_count,
    ensures
        ({
            let again = info.source_path@.len() == 0 && (current matches Some(known)
                && known.pasteboard_change_count == change_count);
            let next = kept_after(current, KeeperEvent::Offer(info), change_count);
            let actions = actions_after(current, KeeperEvent::Offer(info), change_count);
            &&& again ==> next == current && actions.len() == 0
            &&& !again ==> next == Some(info@) && actions.len() > 0 && actions.last()
                == KeeperActionView::StartObserver
            &&& forall|i: int|
                0 <= i < actions.len() - 1 ==> #[trigger] actions[i]
                    == KeeperActionView::RemovePlaceholder((current->0).source_path)
                    && (current->0).source_path != info.source_path@
        }),
{
}

/// Files that left the pasteboard before the keeper was told are not taken: what it
/// knows stays, and all it does is to remove their placeholder.
pub proof fn law_late_offers_are_dropped(
    current: Option<InfoView>,
    info: PasteObserverInfo,
    change_count: i64,
)
    requires
        info.pasteboard_change_count != change_count,
    ensures
        kept_after(current, KeeperEvent::Offer(info), change_count) == current,
        info.source_path@.len() > 0 ==> actions_after(
            current,
            KeeperEvent::Offer(info),
            change_count,
        ) == seq![KeeperActionView::RemovePlaceholder(info.source_path@)],
        info.source_path@.len() == 0 ==> actions_after(
            current,
            KeeperEvent::Offer(info),
            change_count,
        ).len() == 0,
{
}

/// A connection that ends takes its own files with it and no others; zero stands for
/// every connection.
pub proof fn law_only_own_files_are_cleared(info: InfoView, conn_id: i32, change_count: i64)
    ensures
        ({
            let next = kept_after(Some(info), KeeperEvent::Clear(conn_id), change_count);
            let actions = actions_after(Some(info), KeeperEvent::Clear(conn_id), change_count);
            &&& conn_id != 0 && info.conn_id != conn_id ==> next == Some(info) && actions.len() == 0
            &&& conn_id == 0 || info.conn_id == conn_id ==> next is None && actions.len() >= 2
                && actions[0] == KeeperActionView::ClearPasteboard(info.pasteboard_change_count)
                && actions[1] == KeeperActionView::StopObserver
        }),
{
}

/// Files that are no longer on the pasteboard, or whose teller is gone, are let go:
/// the watching ends, and their placeholder goes.
pub proof fn law_replaced_files_are_let_go(info: InfoView, event: KeeperEvent, change_count: i64)
    requires
        event is Disconnected || (event is Timeout && info.pasteboard_change_count != change_count),
    ensures
        kept_after(Some(info), event, change_count) is None,
        actions_after(Some(info), event, change_count).contains(KeeperActionView::StopObserver),
        info.source_path.len() > 0 ==> actions_after(Some(info), event, change_count).contains(
            KeeperActionView::RemovePlaceholder(info.source_path),
        ),
        forall|path: Seq<char>|
            path != info.source_path || path.len() == 0 ==> !#[trigger] actions_after(
                Some(info),
                event,
                change_count,
            ).contains(KeeperActionView::RemovePlaceholder(path)),
{
    let actions = actions_after(Some(info), event, change_count);
    assert(actions[1] == KeeperActionView::StopObserver);
    if info.source_path.len() > 0 {
        assert(actions[2] == KeeperActionView::RemovePlaceholder(info.source_path));
    }
}

/// A keeper without files has nothing to let go.
pub proof fn law_nothing_is_let_go_twice(event: KeeperEvent, change_count: i64)
    requires
        !(event is Offer),
    ensures
        kept_after(None, event, change_count) is None,
        actions_after(None, event, change_count).len() == 0,
{
}

/// The paste that waits for the list of its files.
#[derive(Debug)]
pub struct PendingPaste {
    pub info: Option<PasteObserverInfo>,
}

/// What happens to a pasted placeholder.
#[derive(Debug)]
pub enum PasteRequest {
    /// The target is no place for files.
    Nothing,
    /// Remove the pasted placeholder; an earlier paste still waits.
    RemoveTarget,
    /// Remove the pasted placeholder and ask the connection for the list of files.
    RemoveTargetAndAsk { conn_id: i32, requested_format_id: i32 },
}

impl PendingPaste {
    pub open spec fn view(self) -> Option<InfoView> {
        info_view(self.info)
    }

    pub fn new() -> (r: PendingPaste)
        ensures
            r@ is None,
    {
        PendingPaste { info: None }
    }

    /// Forgets the paste of a connection, or of any.
    pub fn empty_clipboard_(&mut self, conn_id: i32) -> (r: bool)
        ensures
            r,
            final(self)@ == match old(self)@ {
                Some(info) if concerns(info, conn_id) => None,
                other => other,
            },
    {
        let forget = match &self.info {
            Some(info) => conn_id == 0 || info.conn_id == conn_id,
            None => false,
        };
        if forget {
            self.info = None;
        }
        true
    }

    /// Where the files of a connection are pasted, which is asked once.
    pub fn take_target(&mut self, conn_id: i32) -> (r: Option<String>)
        ensures
            (final(self)@, crate::text::text_view(r)) == target_taken(old(self)@, conn_id),
            match old(self)@ {
                Some(info) if info.conn_id == conn_id => final(self)@ is None && (r matches Some(
                    path,
                ) && path@ == info.target_path),
                other => final(self)@ == other && r is None,
            },
    {
        let wanted = match &self.info {
            Some(info) => info.conn_id == conn_id,
            None => false,
        };
        if !wanted {
            return None;
        }
        let mut info: Option<PasteObserverInfo> = None;
        std::mem::swap(&mut info, &mut self.info);
        match info {
            Some(info) => Some(info.target_path),
            None => None,
        }
    }

    /// Takes a placeholder that was pasted. Only one paste waits at a time.
    pub fn handle_paste_result(&mut self, task: &PasteObserverInfo, target_has_parent: bool) -> (r:
        PasteRequest)
        ensures
            (final(self)@, r) == pasted(old(self)@, task@, target_has_parent),
            !target_has_parent ==> r is Nothing && final(self)@ == old(self)@,
            target_has_parent && old(self)@ is Some ==> r is RemoveTarget && final(self)@
                == old(self)@,
            target_has_parent && old(self)@ is None ==> r == (PasteRequest::RemoveTargetAndAsk {
                conn_id: task.conn_id,
                requested_format_id: task.file_descriptor_id,
            }) && final(self)@ == Some(task@),
    {
        if !target_has_parent {
            return PasteRequest::Nothing;
        }
        if self.info.is_some() {
            return PasteRequest::RemoveTarget;
        }
        self.info = Some(task.duplicate());
        PasteRequest::RemoveTargetAndAsk {
            conn_id: task.conn_id,
            requested_format_id: task.file_descriptor_id,
        }
    }

    /// The list of files could not be asked for.
    pub fn request_failed(&mut self)
        ensures
            final(self)@ is None,
    {
        self.info = None;
    }
}

/// A file in the directory of placeholders.
#[derive(Debug)]
pub struct TempEntry {
    pub is_file: bool,
    /// The file's name, where it is text.
    pub name: Option<String>,
}

impl TempEntry {
    /// The entry is a placeholder.
    pub open spec fn is_placeholder(self) -> bool {
        self.is_file && (self.name matches Some(name) && TEMP_FILE_PREFIX@.is_prefix_of(name@))
    }
}

/// The placeholders among entries.
pub open spec fn placeholders() -> spec_fn(TempEntry) -> bool {
    |e: TempEntry| e.is_placeholder()
}

/// Only regular files count as placeholders, and of them those whose name begins
/// with the prefix, whatever follows it.
pub proof fn law_placeholders_are_prefixed_files(
    entry: TempEntry,
    named: TempEntry,
    name: String,
    rest: Seq<char>,
)
    requires
        named.name == Some(name),
        name@ == ".rustdesk_"@ + rest,
    ensures
        named.is_placeholder() == named.is_file,
        !entry.is_file || entry.name is None ==> !entry.is_placeholder(),
        entry.is_placeholder() ==> entry.name->0@.len() >= 10 && entry.name->0@.take(10)
            == ".rustdesk_"@,
{
    reveal_strlit(".rustdesk_");
    assert(name@.subrange(0, 10) =~= ".rustdesk_"@);
    if entry.is_placeholder() {
        assert(entry.name->0@.take(10) =~= ".rustdesk_"@);
    }
}

/// How many placeholders there are.
pub fn temp_files_count(entries: &Vec<TempEntry>) -> (r: usize)
    ensures
        r == entries@.filter(placeholders()).len(),
{
    let mut count: usize = 0;
    let mut i: usize = 0;
    assert(entries@.take(0).filter(placeholders()) =~= Seq::<TempEntry>::empty()) by {
        reveal(Seq::filter);
    }
    while i < entries.len()
        invariant
            i <= entries.len(),
            count <= i,
            count == entries@.take(i as int).filter(placeholders()).len(),
        decreases entries.len() - i,
    {
        proof {
            assert(entries@.take(i + 1).drop_last() =~= entries@.take(i as int));
            reveal(Seq::filter);
        }
        let named = match &entries[i].name {
            Some(name) => starts_with(name.as_str(), TEMP_FILE_PREFIX),
            None => false,
        };
        if entries[i].is_file && named {
            count = count + 1;
        }
        i = i + 1;
    }
    assert(entries@.take(entries@.len() as int) =~= entries@);
    count
}

/// The id of the first format of a name.
pub open spec fn format_id(list: Seq<(i32, String)>, name: Seq<char>) -> Option<i32>
    decreases list.len(),
{
    if list.len() == 0 {
        None
    } else if list[0].1@ == name {
        Some(list[0].0)
    } else {
        format_id(list.drop_first(), name)
    }
}

/// The id that is found for a name is the one that the first entry of that name
/// has; none is found only where no entry has the name.
pub proof fn law_format_id_is_announced(list: Seq<(i32, String)>, name: Seq<char>)
    ensures
        match format_id(list, name) {
            Some(id) => exists|i: int|
                0 <= i < list.len() && (#[trigger] list[i]).0 == id && list[i].1@ == name && (
                forall|j: int| 0 <= j < i ==> (#[trigger] list[j]).1@ != name),
            None => forall|i: int| 0 <= i < list.len() ==> (#[trigger] list[i]).1@ != name,
        },
    decreases list.len(),
{
    if list.len() > 0 {
        let rest = list.drop_first();
        if list[0].1@ != name {
            law_format_id_is_announced(rest, name);
            assert forall|i: int| 0 <= i < rest.len() implies #[trigger] rest[i] == list[i + 1] by {}
            match format_id(rest, name) {
                Some(id) => {
                    let i = choose|i: int|
                        0 <= i < rest.len() && (#[trigger] rest[i]).0 == id && rest[i].1@ == name
                            && (forall|j: int| 0 <= j < i ==> (#[trigger] rest[j]).1@ != name);
                    assert(list[i + 1] == rest[i]);
                    assert forall|j: int| 0 <= j < i + 1 implies (#[trigger] list[j]).1@ != name by {
                        if j > 0 {
                            assert(rest[j - 1] == list[j]);
                        }
                    }
                },
                None => {
                    assert forall|i: int| 0 <= i < list.len() implies (#[trigger] list[i]).1@
                        != name by {
                        if i > 0 {
                            assert(rest[i - 1] == list[i]);
                        }
                    }
                },
            }
        }
    }
}

/// What stands behind the first entry of a name changes nothing about its id, and
/// entries of other names before it do not either.
pub proof fn law_first_format_decides(
    front: Seq<(i32, String)>,
    entry: (i32, String),
    back: Seq<(i32, String)>,
)
    requires
        forall|i: int| 0 <= i < front.len() ==> (#[trigger] front[i]).1@ != entry.1@,
    ensures
        format_id(front + seq![entry] + back, entry.1@) == Some(entry.0),
{
    let list = front + seq![entry] + back;
    law_format_id_is_announced(list, entry.1@);
    assert(list[front.len() as int] == entry);
    match format_id(list, entry.1@) {
        Some(id) => {
            let i = choose|i: int|
                0 <= i < list.len() && (#[trigger] list[i]).0 == id && list[i].1@ == entry.1@ && (
                forall|j: int| 0 <= j < i ==> (#[trigger] list[j]).1@ != entry.1@);
            if i < front.len() {
                assert(list[i] == front[i]);
            }
            if front.len() < i {
                assert(list[front.len() as int].1@ != entry.1@);
            }
        },
        None => {
            assert(list[front.len() as int].1@ != entry.1@);
        },
    }
}

/// The list that offers copied files under the usual names is one from which the
/// pasteboard finds both formats, each under the id that was sent.
pub proof fn law_offered_files_are_found(list: Seq<(i32, String)>)
    requires
        crate::clipboard::messages::lists_file_formats(
            list,
            crate::clipboard::messages::file_formats(),
        ),
    ensures
        format_id(list, "FileGroupDescriptorW"@) == Some(49334i32),
        format_id(list, "FileContents"@) == Some(49267i32),
{
    reveal_strlit("FileGroupDescriptorW");
    reveal_strlit("FileContents");
    assert("FileGroupDescriptorW"@[4] == 'G');
    assert("FileContents"@[4] == 'C');
    assert(list =~= Seq::<(i32, String)>::empty() + seq![list[0]] + seq![list[1]]);
    law_first_format_decides(Seq::empty(), list[0], seq![list[1]]);
    assert(list =~= seq![list[0]] + seq![list[1]] + Seq::<(i32, String)>::empty());
    law_first_format_decides(seq![list[0]], list[1], Seq::empty());
}

fn find_format_id(list: &Vec<(i32, String)>, name: &str) -> (r: Option<i32>)
    ensures
        r == format_id(list@, name@),
        match r {
            Some(id) => exists|i: int|
                0 <= i < list@.len() && (#[trigger] list@[i]).0 == id && list@[i].1@ == name@,
            None => forall|i: int| 0 <= i < list@.len() ==> (#[trigger] list@[i]).1@ != name@,
        },
{
    proof {
        law_format_id_is_announced(list@, name@);
    }
    let mut i: usize = 0;
    assert(list@.skip(0) =~= list@);
    while i < list.len()
        invariant
            i <= list.len(),
            format_id(list@, name@) == format_id(list@.skip(i as int), name@),
        decreases list.len() - i,
    {
        assert(list@.skip(i as int)[0] == list@[i as int]);
        if same_text(list[i].1.as_str(), name) {
            return Some(list[i].0);
        }
        assert(list@.skip(i as int).drop_first() =~= list@.skip(i + 1));
        i = i + 1;
    }
    None
}

/// The format with the list of files, in a list of formats that offers files.
pub fn handle_format_list(inited: bool, format_list: &Vec<(i32, String)>) -> (r: Result<
    i32,
    String,
>)
    ensures
        match r {
            Ok(id) => inited && format_id(format_list@, FILECONTENTS_FORMAT_NAME@) is Some
                && format_id(format_list@, FILEDESCRIPTORW_FORMAT_NAME@) == Some(id),
            Err(e) => e@ == if !inited {
                "pasteboard context is not inited"@
            } else if format_id(format_list@, FILECONTENTS_FORMAT_NAME@) is None {
                "no file contents format found"@
            } else {
                "no file descriptor format found"@
            } && (inited && format_id(format_list@, FILECONTENTS_FORMAT_NAME@) is Some ==> format_id(
                format_list@,
                FILEDESCRIPTORW_FORMAT_NAME@,
            ) is None),
        },
{
    if !inited {
        return Err("pasteboard context is not inited".to_owned());
    }
    if find_format_id(format_list, FILECONTENTS_FORMAT_NAME).is_none() {
        return Err("no file contents format found".to_owned());
    }
    match find_format_id(format_list, FILEDESCRIPTORW_FORMAT_NAME) {
        Some(id) => Ok(id),
        None => Err("no file descriptor format found".to_owned()),
    }
}

/// A message for the pasteboard.
#[derive(Debug)]
pub enum PasteboardMessage {
    Clip(ClipboardFile),
    TryEmpty,
}

/// What a message for the pasteboard leads to.
#[derive(Debug)]
pub enum PasteboardStep {
    /// Offer files whose list has this format.
    OfferFiles { file_descriptor_id: i32 },
    /// The list of the files that are pasted.
    ReceiveList { msg_flags: i32, format_data: Vec<u8> },
    /// A part of a file that is pasted.
    ReceiveContents { msg_flags: i32, stream_id: i32, requested_data: Vec<u8> },
    Empty,
    Nothing,
}

/// How too many placeholders are reported.
pub open spec fn too_many(count: nat) -> Seq<char> {
    "too many temp files, current: "@ + crate::text::decimal(count) + ", limit: "@
        + crate::text::decimal(TEMP_FILE_LIMIT as nat)
}

/// What a message for the pasteboard leads to. New files are refused while
/// placeholders are left behind or an earlier paste goes on.
pub fn server_clip_file_(
    msg: PasteboardMessage,
    temp_files: usize,
    task_finished: bool,
    inited: bool,
) -> (r: Result<PasteboardStep, String>)
    ensures
        match msg {
            PasteboardMessage::TryEmpty => r matches Ok(PasteboardStep::Empty),
            PasteboardMessage::Clip(ClipboardFile::FormatList { format_list }) => if temp_files
                >= TEMP_FILE_LIMIT {
                r matches Err(e) && e@ == too_many(temp_files as nat)
            } else if !task_finished {
                r matches Err(e) && e@ == "previous file paste task is not finished"@
            } else {
                match (
                    inited,
                    format_id(format_list@, FILECONTENTS_FORMAT_NAME@),
                    format_id(format_list@, FILEDESCRIPTORW_FORMAT_NAME@),
                ) {
                    (true, Some(_), Some(id)) => r == Ok::<PasteboardStep, String>(
                        PasteboardStep::OfferFiles { file_descriptor_id: id },
                    ),
                    (false, _, _) => r matches Err(e) && e@ == "pasteboard context is not inited"@,
                    (true, None, _) => r matches Err(e) && e@ == "no file contents format found"@,
                    (true, Some(_), None) => r matches Err(e) && e@
                        == "no file descriptor format found"@,
                }
            },
            PasteboardMessage::Clip(
                ClipboardFile::FormatDataResponse { msg_flags, format_data },
            ) => r == Ok::<PasteboardStep, String>(
                PasteboardStep::ReceiveList { msg_flags, format_data },
            ),
            PasteboardMessage::Clip(
                ClipboardFile::FileContentsResponse { msg_flags, stream_id, requested_data },
            ) => r == Ok::<PasteboardStep, String>(
                PasteboardStep::ReceiveContents { msg_flags, stream_id, requested_data },
            ),
            _ => r matches Ok(PasteboardStep::Nothing),
        },
{
    match msg {
        PasteboardMessage::TryEmpty => Ok(PasteboardStep::Empty),
        PasteboardMessage::Clip(ClipboardFile::FormatList { format_list }) => {
            if temp_files >= TEMP_FILE_LIMIT {
                let mut text: String = "too many temp files, current: ".to_owned();
                let number = crate::text::decimal_text(temp_files as u64);
                text.append(number.as_str());
                text.append(", limit: ");
                let limit = crate::text::decimal_text(TEMP_FILE_LIMIT as u64);
                text.append(limit.as_str());
                return Err(text);
            }
            if !task_finished {
                return Err("previous file paste task is not finished".to_owned());
            }
            match handle_format_list(inited, &format_list) {
                Ok(id) => Ok(PasteboardStep::OfferFiles { file_descriptor_id: id }),
                Err(e) => Err(e),
            }
        },
        PasteboardMessage::Clip(ClipboardFile::FormatDataResponse { msg_flags, format_data }) => Ok(
            PasteboardStep::ReceiveList { msg_flags, format_data },
        ),
        PasteboardMessage::Clip(
            ClipboardFile::FileContentsResponse { msg_flags, stream_id, requested_data },
        ) => Ok(PasteboardStep::ReceiveContents { msg_flags, stream_id, requested_data }),
        _ => Ok(PasteboardStep::Nothing),
    }
}

/// The directory in which files are pasted. `parent` is the directory of the
/// pasted placeholder, where there is one, and whether it exists.
pub fn paste_directory(parent: Option<(String, bool)>) -> (r: Result<String, String>)
    ensures
        match parent {
            None => r matches Err(e) && e@ == "failed to get parent path"@,
            Some((dir, true)) => r == Ok::<String, String>(dir),
            Some((dir, false)) => r matches Err(e) && e@ == "target path does not exist"@,
        },
{
    match parent {
        None => Err("failed to get parent path".to_owned()),
        Some((dir, there)) => {
            if there {
                Ok(dir)
            } else {
                Err("target path does not exist".to_owned())
            }
        },
    }
}

/// What ends the observer tells nothing of any file: whatever names a connection, a
/// file or a state of the pasteboard does not end it.
pub proof fn law_only_an_empty_report_ends_the_observer(info: PasteObserverInfo)
    ensures
        info.is_exit_msg() <==> info.file_descriptor_id == 0 && info.conn_id == 0
            && info.source_path@ == Seq::<char>::empty() && info.target_path@ == Seq::<char>::empty()
            && info.pasteboard_change_count == 0,
{
    if info.source_path@.len() == 0 {
        assert(info.source_path@ =~= Seq::<char>::empty());
    }
    if info.target_path@.len() == 0 {
        assert(info.target_path@ =~= Seq::<char>::empty());
    }
}

/// The paste that waits once a connection has asked where its files go, and what it is
/// told.
pub open spec fn target_taken(waiting: Option<InfoView>, conn_id: i32) -> (
    Option<InfoView>,
    Option<Seq<char>>,
) {
    if waiting is Some && waiting->0.conn_id == conn_id {
        (None, Some(waiting->0.target_path))
    } else {
        (waiting, None)
    }
}

/// The paste that waits once a placeholder was pasted, and what is done then.
pub open spec fn pasted(
    waiting: Option<InfoView>,
    task: InfoView,
    target_has_parent: bool,
) -> (Option<InfoView>, PasteRequest) {
    if !target_has_parent {
        (waiting, PasteRequest::Nothing)
    } else if waiting is Some {
        (waiting, PasteRequest::RemoveTarget)
    } else {
        (
            Some(task),
            PasteRequest::RemoveTargetAndAsk {
                conn_id: task.conn_id,
                requested_format_id: task.file_descriptor_id,
            },
        )
    }
}

/// What was pasted is told to its own connection, once; other connections are told
/// nothing and take nothing away.
pub proof fn law_a_target_is_told_once(
    task: InfoView,
    waiting: Option<InfoView>,
    conn_id: i32,
)
    ensures
        ({
            let after = pasted(None, task, true).0;
            let taken = target_taken(after, task.conn_id);
            &&& taken.1 == Some(task.target_path)
            &&& target_taken(taken.0, conn_id).1 is None
            &&& conn_id != task.conn_id ==> target_taken(after, conn_id) == (after, None::<Seq<char>>)
        }),
        target_taken(waiting, conn_id).1 is None ==> target_taken(waiting, conn_id).0 == waiting,
        target_taken(None, conn_id).1 is None,
{
}

/// One paste waits at a time: a later one does not displace it and asks for nothing. Its
/// own connection is asked for the list of its own files.
pub proof fn law_one_paste_waits(waiting: Option<InfoView>, task: InfoView, target_has_parent: bool)
    ensures
        waiting is Some ==> pasted(waiting, task, target_has_parent).0 == waiting && !(pasted(
            waiting,
            task,
            target_has_parent,
        ).1 is RemoveTargetAndAsk),
        !target_has_parent ==> pasted(waiting, task, target_has_parent) == (
            waiting,
            PasteRequest::Nothing,
        ),
        target_has_parent ==> !(pasted(waiting, task, target_has_parent).1 is Nothing),
        pasted(waiting, task, target_has_parent).1 matches PasteRequest::RemoveTargetAndAsk {
            conn_id,
            requested_format_id,
        } ==> conn_id == task.conn_id && requested_format_id == task.file_descriptor_id
            && waiting is None && pasted(waiting, task, target_has_parent).0 == Some(task),
{
}

} // verus!
