//! What the programs make of their names and arguments.
use crate::text::{chars_of, same_text, text_of};
use vstd::prelude::*;

verus! {

/// What the service is started for.
#[derive(Clone, Copy, Debug, PartialEq, Eq, Structural)]
pub enum ServiceCommand {
    Run,
    WritePlists,
    CompleteHelperMigration,
    Invalid,
}

/// What the arguments of the service ask for; the first one is the program.
pub open spec fn command_of(args: Seq<Seq<char>>) -> ServiceCommand {
    if args.len() == 1 {
        ServiceCommand::Run
    } else if args == seq![args[0], "--write-plists"@] {
        ServiceCommand::WritePlists
    } else if args == seq![args[0], "--complete-helper-migration"@] {
        ServiceCommand::CompleteHelperMigration
    } else {
        ServiceCommand::Invalid
    }
}

/// Reads the arguments of the service; the first one is the program.
pub fn service_command(args: &Vec<String>) -> (r: ServiceCommand)
    ensures
        r == command_of(crate::text::texts(args@)),
        r == if args@.len() == 1 {
            ServiceCommand::Run
        } else if args@.len() == 2 && args@[1]@ == "--write-plists"@ {
            ServiceCommand::WritePlists
        } else if args@.len() == 2 && args@[1]@ == "--complete-helper-migration"@ {
            ServiceCommand::CompleteHelperMigration
        } else {
            ServiceCommand::Invalid
        },
{
    proof {
        reveal_strlit("--write-plists");
        reveal_strlit("--complete-helper-migration");
        let all = crate::text::texts(args@);
        assert(all.len() == args@.len());
        if all.len() == 2 {
            assert(all[1] == args@[1]@);
            assert(all =~= seq![all[0], args@[1]@]);
            let first = seq![all[0], "--write-plists"@];
            let second = seq![all[0], "--complete-helper-migration"@];
            assert(first[1] == "--write-plists"@ && second[1] == "--complete-helper-migration"@);
        }
    }
    if args.len() == 1 {
        return ServiceCommand::Run;
    }
    if args.len() == 2 {
        if same_text(args[1].as_str(), "--write-plists") {
            return ServiceCommand::WritePlists;
        }
        if same_text(args[1].as_str(), "--complete-helper-migration") {
            return ServiceCommand::CompleteHelperMigration;
        }
    }
    ServiceCommand::Invalid
}

/// A text ends with another one, upper and lower case alike.
pub open spec fn ends_with_ignoring_case(s: Seq<char>, suffix: Seq<char>) -> bool {
    &&& suffix.len() <= s.len()
    &&& forall|i: int|
        0 <= i < suffix.len() ==> crate::text::ascii_lower(s[s.len() - suffix.len() + i])
            == #[trigger] suffix[i]
}

fn lower_char(c: char) -> (r: char)
    ensures
        r == crate::text::ascii_lower(c),
{
    if 'A' <= c && c <= 'Z' {
        (c as u8 + 32) as char
    } else {
        c
    }
}

fn has_suffix_ignoring_case(s: &Vec<char>, suffix: &Vec<char>) -> (r: bool)
    ensures
        r == ends_with_ignoring_case(s@, suffix@),
{
    if s.len() < suffix.len() {
        return false;
    }
    let start: usize = s.len() - suffix.len();
    let mut i: usize = 0;
    while i < suffix.len()
        invariant
            start + suffix.len() == s.len(),
            i <= suffix.len(),
            forall|k: int|
                0 <= k < i ==> crate::text::ascii_lower(s@[start + k]) == #[trigger] suffix@[k],
        decreases suffix.len() - i,
    {
        if lower_char(s[start + i]) != suffix[i] {
            assert(crate::text::ascii_lower(s@[s@.len() - suffix@.len() + i]) != suffix@[i as int]);
            return false;
        }
        i = i + 1;
    }
    assert forall|k: int| 0 <= k < suffix@.len() implies crate::text::ascii_lower(
        s@[s@.len() - suffix@.len() + k],
    ) == #[trigger] suffix@[k] by {
        assert(s@.len() - suffix@.len() + k == start + k);
    }
    true
}

/// The program that a runner starts: its own name without the word that marks a
/// runner.
pub fn runner_target(exe_name: &str) -> (r: Option<String>)
    ensures
        crate::text::text_view(r) == if ends_with_ignoring_case(exe_name@, "runner.exe"@) {
            Some(exe_name@.take(exe_name@.len() - 10) + ".exe"@)
        } else if ends_with_ignoring_case(exe_name@, "runner"@) {
            Some(exe_name@.take(exe_name@.len() - 6))
        } else {
            None
        },
{
    proof {
        reveal_strlit("runner.exe");
        reveal_strlit("runner");
    }
    let chars = chars_of(exe_name);
    let windows_mark = chars_of("runner.exe");
    let mark = chars_of("runner");
    if has_suffix_ignoring_case(&chars, &windows_mark) {
        let mut name = text_of(&chars, 0, chars.len() - 10);
        assert(name@ =~= exe_name@.take(exe_name@.len() - 10));
        name.append(".exe");
        return Some(name);
    }
    if has_suffix_ignoring_case(&chars, &mark) {
        let name = text_of(&chars, 0, chars.len() - 6);
        assert(name@ =~= exe_name@.take(exe_name@.len() - 6));
        return Some(name);
    }
    None
}

/// Whether the private screen can be left out of captures. It cannot.
pub fn is_supported() -> (r: bool)
    ensures
        !r,
{
    false
}

/// Whether a text ends with a word hangs on its last characters alone, each of which
/// may be in upper case.
pub proof fn law_endings_ignore_case(a: Seq<char>, ending: Seq<char>, word: Seq<char>)
    requires
        ending.len() == word.len(),
    ensures
        ends_with_ignoring_case(a + ending, word) <==> forall|i: int|
            0 <= i < word.len() ==> (#[trigger] word[i] == ending[i] && !('A' <= ending[i] <= 'Z'))
                || ('A' <= ending[i] <= 'Z' && word[i] == (ending[i] as u8 + 32) as char),
        a.len() < word.len() ==> !ends_with_ignoring_case(a, word),
{
    let s = a + ending;
    assert forall|i: int| 0 <= i < word.len() implies s[s.len() - word.len() + i]
        == #[trigger] ending[i] by {}
    if ends_with_ignoring_case(s, word) {
        assert forall|i: int| 0 <= i < word.len() implies (#[trigger] word[i] == ending[i] && !('A'
            <= ending[i] <= 'Z')) || ('A' <= ending[i] <= 'Z' && word[i] == (ending[i] as u8 + 32) as char) by {
            assert(crate::text::ascii_lower(s[s.len() - word.len() + i]) == word[i]);
        }
    }
    if forall|i: int|
        0 <= i < word.len() ==> (#[trigger] word[i] == ending[i] && !('A' <= ending[i] <= 'Z')) || (
        'A' <= ending[i] <= 'Z' && word[i] == (ending[i] as u8 + 32) as char) {
        assert forall|i: int| 0 <= i < word.len() implies crate::text::ascii_lower(
            s[s.len() - word.len() + i],
        ) == #[trigger] word[i] by {
            assert(s[s.len() - word.len() + i] == ending[i]);
        }
    }
}

/// The service runs where it is told nothing; each of its two other tasks is asked for by
/// one word and nothing more, and anything else is refused, whatever the program is
/// called.
pub proof fn law_what_the_service_is_asked_for(program: Seq<char>, word: Seq<char>, more: Seq<char>)
    ensures
        command_of(seq![program]) == ServiceCommand::Run,
        command_of(seq![program, word]) == ServiceCommand::WritePlists <==> word
            == "--write-plists"@,
        command_of(seq![program, word]) == ServiceCommand::CompleteHelperMigration <==> word
            == "--complete-helper-migration"@,
        command_of(seq![program, word]) != ServiceCommand::Run,
        command_of(seq![program, word, more]) == ServiceCommand::Invalid,
        command_of(Seq::empty()) == ServiceCommand::Invalid,
{
    reveal_strlit("--write-plists");
    reveal_strlit("--complete-helper-migration");
    let args = seq![program, word];
    assert(args[1] == word);
    assert(seq![program, "--write-plists"@][1] == "--write-plists"@);
    assert(seq![program, "--complete-helper-migration"@][1] == "--complete-helper-migration"@);
    assert("--write-plists"@.len() != "--complete-helper-migration"@.len());
    assert(seq![program, word, more].len() == 3);
}

} // verus!
