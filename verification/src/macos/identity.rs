//! Writing an app's own name and bundle identifier into templates.
use crate::text::{chars_of, replace_text, to_lowercase};
use vstd::prelude::*;

verus! {

/// The bundle identifier that templates are written with.
pub const DEFAULT_BUNDLE_ID: &'static str = "com.carriez.rustdesk";

/// What stands for the bundle identifier while names are replaced.
pub const BUNDLE_ID_TOKEN: &'static str = "@@BUNDLE_IDENTIFIER@@";

/// A character that a bundle identifier may hold.
pub open spec fn bundle_char(c: char) -> bool {
    ||| '0' <= c <= '9'
    ||| 'a' <= c <= 'z'
    ||| 'A' <= c <= 'Z'
    ||| c == '.'
    ||| c == '-'
}

/// A bundle identifier holds at least one character, and only those that are
/// harmless in a script and in a property list.
pub open spec fn valid_bundle_id(id: Seq<char>) -> bool {
    id.len() > 0 && forall|i: int| 0 <= i < id.len() ==> bundle_char(#[trigger] id[i])
}

/// Accepts a bundle identifier that is safe to write into a template.
pub fn validate_bundle_identifier(bundle_id: &str) -> (r: Result<(), String>)
    ensures
        match r {
            Ok(()) => valid_bundle_id(bundle_id@),
            Err(e) => !valid_bundle_id(bundle_id@) && e@
                == "Invalid application bundle identifier"@,
        },
{
    let chars = chars_of(bundle_id);
    if chars.len() == 0 {
        return Err("Invalid application bundle identifier".to_owned());
    }
    let mut i: usize = 0;
    while i < chars.len()
        invariant
            chars@ == bundle_id@,
            i <= chars.len(),
            forall|k: int| 0 <= k < i ==> bundle_char(#[trigger] chars@[k]),
        decreases chars.len() - i,
    {
        let c = chars[i];
        let allowed = ('0' <= c && c <= '9') || ('a' <= c && c <= 'z') || ('A' <= c && c <= 'Z')
            || c == '.' || c == '-';
        if !allowed {
            assert(!bundle_char(bundle_id@[i as int]));
            return Err("Invalid application bundle identifier".to_owned());
        }
        i = i + 1;
    }
    Ok(())
}

/// A template with an app's own names in it. The lower-case name replaces the
/// lower-case placeholder and the name itself the other one. Where a bundle
/// identifier is known, it replaces the one of the template, in which the names
/// are then not replaced.
pub open spec fn with_identity(
    s: Seq<char>,
    app_name: Seq<char>,
    bundle_id: Option<Seq<char>>,
) -> Seq<char> {
    let marked = match bundle_id {
        Some(_) => crate::text::replaced(s, DEFAULT_BUNDLE_ID@, BUNDLE_ID_TOKEN@),
        None => s,
    };
    named(marked, crate::text::lowercased(app_name), app_name, bundle_id)
}

/// The last steps of naming: both names, and the identifier.
pub open spec fn named(
    marked: Seq<char>,
    lower_name: Seq<char>,
    app_name: Seq<char>,
    bundle_id: Option<Seq<char>>,
) -> Seq<char> {
    let lower = crate::text::replaced(marked, "rustdesk"@, lower_name);
    let both = crate::text::replaced(lower, "RustDesk"@, app_name);
    match bundle_id {
        Some(id) => crate::text::replaced(both, BUNDLE_ID_TOKEN@, id),
        None => both,
    }
}

/// The view of an optional text.
pub open spec fn id_view(bundle_id: Option<&str>) -> Option<Seq<char>> {
    match bundle_id {
        Some(id) => Some(id@),
        None => None,
    }
}

/// Writes an app's names, of which `lower_name` is the lower-case one, into a
/// template.
pub fn replace_app_names(
    s: &str,
    lower_name: &str,
    app_name: &str,
    bundle_id: Option<&str>,
) -> (r: String)
    ensures
        r@ == named(
            match bundle_id {
                Some(_) => crate::text::replaced(s@, DEFAULT_BUNDLE_ID@, BUNDLE_ID_TOKEN@),
                None => s@,
            },
            lower_name@,
            app_name@,
            id_view(bundle_id),
        ),
{
    proof {
        reveal_strlit("rustdesk");
        reveal_strlit("RustDesk");
        reveal_strlit("com.carriez.rustdesk");
        reveal_strlit("@@BUNDLE_IDENTIFIER@@");
    }
    let marked: String = match bundle_id {
        Some(_) => replace_text(s, DEFAULT_BUNDLE_ID, BUNDLE_ID_TOKEN),
        None => s.to_owned(),
    };
    let lower = replace_text(marked.as_str(), "rustdesk", lower_name);
    let both = replace_text(lower.as_str(), "RustDesk", app_name);
    match bundle_id {
        Some(id) => replace_text(both.as_str(), BUNDLE_ID_TOKEN, id),
        None => both,
    }
}

/// Writes an app's identity into a template.
pub fn replace_app_identity(s: &str, app_name: &str, bundle_id: Option<&str>) -> (r: String)
    ensures
        r@ == with_identity(s@, app_name@, id_view(bundle_id)),
{
    let lower_name = to_lowercase(app_name);
    replace_app_names(s, lower_name.as_str(), app_name, bundle_id)
}

/// Writes an app's identity into a template that runs with privileges.
/// `name_check` is what the rules for names of installed apps say of the name.
pub fn render_privileged_template(
    s: &str,
    app_name: &str,
    name_check: Result<(), String>,
    bundle_id: Option<&str>,
) -> (r: Result<String, String>)
    ensures
        match name_check {
            Err(e) => r == Err::<String, String>(e),
            Ok(()) => match r {
                Ok(text) => (bundle_id matches Some(id) ==> valid_bundle_id(id@)) && text@
                    == with_identity(s@, app_name@, id_view(bundle_id)),
                Err(e) => bundle_id matches Some(id) && !valid_bundle_id(id@) && e@
                    == "Invalid application bundle identifier"@,
            },
        },
{
    if let Err(e) = name_check {
        return Err(e);
    }
    if let Some(id) = bundle_id {
        if let Err(e) = validate_bundle_identifier(id) {
            return Err(e);
        }
    }
    Ok(replace_app_identity(s, app_name, bundle_id))
}

/// Writes an app's identity into a property list.
pub fn render_plist_body(
    s: &str,
    app_name: &str,
    name_check: Result<(), String>,
    bundle_id: &str,
) -> (r: Result<String, String>)
    ensures
        match name_check {
            Err(e) => r == Err::<String, String>(e),
            Ok(()) => match r {
                Ok(text) => valid_bundle_id(bundle_id@) && text@ == with_identity(
                    s@,
                    app_name@,
                    Some(bundle_id@),
                ),
                Err(e) => !valid_bundle_id(bundle_id@) && e@
                    == "Invalid application bundle identifier"@,
            },
        },
{
    render_privileged_template(s, app_name, name_check, Some(bundle_id))
}

/// The identifier of an installed app, of which `found` is what its bundle says.
pub fn get_installed_bundle_id(name_check: Result<(), String>, found: Option<String>) -> (r: Result<
    String,
    String,
>)
    ensures
        match name_check {
            Err(e) => r == Err::<String, String>(e),
            Ok(()) => match found {
                None => r matches Err(e) && e@
                    == "Failed to read installed application bundle identifier"@,
                Some(id) => if valid_bundle_id(id@) {
                    r == Ok::<String, String>(id)
                } else {
                    r matches Err(e) && e@ == "Invalid application bundle identifier"@
                },
            },
        },
{
    if let Err(e) = name_check {
        return Err(e);
    }
    match found {
        None => Err("Failed to read installed application bundle identifier".to_owned()),
        Some(id) => match validate_bundle_identifier(id.as_str()) {
            Ok(()) => Ok(id),
            Err(e) => Err(e),
        },
    }
}

/// Replacing a text by itself changes nothing.
pub proof fn law_replacing_by_itself_changes_nothing(s: Seq<char>, pattern: Seq<char>)
    requires
        pattern.len() > 0,
    ensures
        crate::text::replaced(s, pattern, pattern) == s,
    decreases s.len(),
{
    reveal_with_fuel(crate::text::replaced, 2);
    if s.len() == 0 {
        assert(crate::text::replaced(s, pattern, pattern) =~= s);
    } else if crate::text::occurs_at(s, pattern, 0) {
        law_replacing_by_itself_changes_nothing(s.skip(pattern.len() as int), pattern);
        assert(pattern + s.skip(pattern.len() as int) =~= s);
    } else {
        law_replacing_by_itself_changes_nothing(s.drop_first(), pattern);
        assert(seq![s[0]] + s.drop_first() =~= s);
    }
}

/// The app that templates are written for gets them as they are.
pub proof fn law_own_templates_are_kept(s: Seq<char>)
    ensures
        named(s, "rustdesk"@, "RustDesk"@, None) == s,
{
    reveal_strlit("rustdesk");
    reveal_strlit("RustDesk");
    law_replacing_by_itself_changes_nothing(s, "rustdesk"@);
    law_replacing_by_itself_changes_nothing(s, "RustDesk"@);
}

/// A bundle identifier is made of letters and digits of ASCII, full stops and hyphens,
/// one behind the other, and of nothing else.
pub proof fn law_identifiers_by_their_characters(id: Seq<char>, c: char)
    ensures
        valid_bundle_id(id.push(c)) <==> (id.len() == 0 || valid_bundle_id(id)) && ((c as u8 as char
            == c) && (48 <= c as u8 <= 57 || 65 <= c as u8 <= 90 || 97 <= c as u8 <= 122 || c as u8
            == 45 || c as u8 == 46)),
        !valid_bundle_id(Seq::empty()),
{
    let longer = id.push(c);
    assert(longer.last() == c);
    if valid_bundle_id(longer) {
        assert(bundle_char(longer[longer.len() - 1]));
        assert forall|i: int| 0 <= i < id.len() implies bundle_char(#[trigger] id[i]) by {
            assert(longer[i] == id[i]);
        }
    }
    assert forall|i: int| 0 <= i < id.len() implies #[trigger] longer[i] == id[i] by {}
}

/// Where the template's identifier stands alone, the app's own takes its place,
/// whatever the app is called.
pub proof fn law_identifier_is_written_whole(
    lower_name: Seq<char>,
    app_name: Seq<char>,
    id: Seq<char>,
)
    ensures
        with_identity("com.carriez.rustdesk"@, app_name, Some(id)) == id,
        named("@@BUNDLE_IDENTIFIER@@"@, lower_name, app_name, Some(id)) == id,
{
    reveal_strlit("com.carriez.rustdesk");
    reveal_strlit("@@BUNDLE_IDENTIFIER@@");
    lemma_token_holds_no_name(lower_name, app_name, id);
    lemma_token_holds_no_name(crate::text::lowercased(app_name), app_name, id);
    let whole = "com.carriez.rustdesk"@;
    let token = "@@BUNDLE_IDENTIFIER@@"@;
    assert(whole.subrange(0, whole.len() as int) =~= whole);
    assert(whole.skip(whole.len() as int) =~= Seq::<char>::empty());
    reveal_with_fuel(crate::text::replaced, 2);
    assert(crate::text::replaced(whole, whole, token) =~= token);
}

proof fn lemma_token_holds_no_name(lower_name: Seq<char>, app_name: Seq<char>, id: Seq<char>)
    ensures
        named("@@BUNDLE_IDENTIFIER@@"@, lower_name, app_name, Some(id)) == id,
{
    let token = "@@BUNDLE_IDENTIFIER@@"@;
    reveal_strlit("@@BUNDLE_IDENTIFIER@@");
    reveal_strlit("rustdesk");
    reveal_strlit("RustDesk");
    assert forall|i: int| !crate::text::occurs_at(token, "rustdesk"@, i) by {
        if 0 <= i && i + 8 <= token.len() {
            assert("rustdesk"@[1] == 'u');
            assert(token.subrange(i, i + 8)[1] == token[i + 1]);
            assert(token[i + 1] != 'u');
        }
    }
    assert forall|i: int| !crate::text::occurs_at(token, "RustDesk"@, i) by {
        if 0 <= i && i + 8 <= token.len() {
            assert("RustDesk"@[1] == 'u');
            assert(token.subrange(i, i + 8)[1] == token[i + 1]);
            assert(token[i + 1] != 'u');
        }
    }
    crate::text::law_replacing_goes_from_left_to_right(token, "rustdesk"@, lower_name, 0);
    crate::text::law_replacing_goes_from_left_to_right(token, "RustDesk"@, app_name, 0);
    assert(token.subrange(0, token.len() as int) =~= token);
    assert(token.skip(token.len() as int) =~= Seq::<char>::empty());
    reveal_with_fuel(crate::text::replaced, 2);
    assert(crate::text::replaced(token, token, id) =~= id);
}

/// Without an identifier only the names are replaced: each spelling by its own, and
/// text without either stays as it is.
pub proof fn law_names_are_replaced_by_spelling(
    s: Seq<char>,
    lower_name: Seq<char>,
    app_name: Seq<char>,
)
    ensures
        !crate::text::occurs_in(s, "rustdesk"@) && !crate::text::occurs_in(s, "RustDesk"@) ==> named(
            s,
            lower_name,
            app_name,
            None,
        ) == s,
        !crate::text::occurs_in(lower_name, "RustDesk"@) ==> named(
            "rustdesk"@,
            lower_name,
            app_name,
            None,
        ) == lower_name,
        named("RustDesk"@, lower_name, app_name, None) == app_name,
        with_identity(s, app_name, None) == named(
            s,
            crate::text::lowercased(app_name),
            app_name,
            None,
        ),
{
    reveal_strlit("rustdesk");
    reveal_strlit("RustDesk");
    crate::text::law_replacing_goes_from_left_to_right(s, "rustdesk"@, lower_name, 0);
    crate::text::law_replacing_goes_from_left_to_right(s, "RustDesk"@, app_name, 0);
    crate::text::law_replacing_goes_from_left_to_right(lower_name, "RustDesk"@, app_name, 0);
    let lower = "rustdesk"@;
    let upper = "RustDesk"@;
    reveal_with_fuel(crate::text::replaced, 2);
    assert(lower.subrange(0, 8) =~= lower);
    assert(upper.subrange(0, 8) =~= upper);
    assert(lower.skip(8) =~= Seq::<char>::empty());
    assert(upper.skip(8) =~= Seq::<char>::empty());
    assert(crate::text::replaced(lower, lower, lower_name) =~= lower_name);
    assert(upper[0] == 'R' && lower[0] == 'r');
    assert(!crate::text::occurs_at(upper, lower, 0));
    assert(crate::text::replaced(upper, lower, lower_name) =~= seq!['R'] + upper.drop_first());
    assert(seq!['R'] + upper.drop_first() =~= upper);
    assert(crate::text::replaced(upper, upper, app_name) =~= app_name);
}

} // verus!
