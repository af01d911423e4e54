//! The names under which the broker and its applications appear on the
//! message bus.

use vstd::prelude::*;
use vstd::string::*;

verus! {

/// The well-known name the broker requests on the bus.
pub const SERVICE_NAME: &'static str = "org.chromium.ManaTEE";

/// The object under which the broker itself is exported.
pub const SERVICE_PATH: &'static str = "/org/chromium/ManaTEE1";

/// The method that starts an instance of an application.
pub const START_METHOD: &'static str = "StartInstance";

/// What the interface of every application begins with.
pub const INTERFACE_PREFIX: &'static str = "org.chromium.manatee.";

/// What the object path of every application begins with.
pub const PATH_PREFIX: &'static str = "/org/chromium/ManaTEE1/";

/// `text` with `to` in place of each occurrence of the character `from`.
pub open spec fn replaced(text: Seq<char>, from: char, to: Seq<char>) -> Seq<char>
    decreases text.len(),
{
    if text.len() == 0 {
        Seq::empty()
    } else if text[0] == from {
        to + replaced(text.skip(1), from, to)
    } else {
        seq![text[0]] + replaced(text.skip(1), from, to)
    }
}

/// Calls `str::replace` with a character as the pattern. The library
/// documents that every match of the pattern, found from left to right, is
/// replaced; a character matches each of its own occurrences and nothing
/// else, so the result is `text` with `to` in place of each `from`.
#[verifier::external_body]
fn replace_char(text: &str, from: char, to: &str) -> (result: String)
    ensures
        result@ == replaced(text@, from, to@),
{
    text.replace(from, to)
}

/// Bus identifiers take letters, digits and underscores only, while
/// application ids may hold hyphens: each hyphen gives way to an
/// underscore.
pub open spec fn identifier_of(app_id: Seq<char>) -> Seq<char> {
    app_id.map_values(|c: char| if c == '-' { '_' } else { c })
}

/// Putting an underscore in place of each hyphen changes the characters
/// one by one.
proof fn lemma_replaced_hyphens(app_id: Seq<char>)
    ensures
        replaced(app_id, '-', seq!['_']) == identifier_of(app_id),
    decreases app_id.len(),
{
    if app_id.len() > 0 {
        lemma_replaced_hyphens(app_id.skip(1));
    }
}

/// The bus identifier of an application.
pub fn dbus_identifier(app_id: &str) -> (identifier: String)
    ensures
        identifier@ == identifier_of(app_id@),
        identifier@.len() == app_id@.len(),
        forall|i: int| 0 <= i < identifier@.len() ==> identifier@[i] != '-',
{
    let identifier = replace_char(app_id, '-', "_");
    proof {
        reveal_strlit("_");
        assert("_"@ =~= seq!['_']);
        lemma_replaced_hyphens(app_id@);
    }
    identifier
}

/// The interface under which an application is registered.
pub fn interface_name(app_id: &str) -> (name: String)
    ensures
        name@ == INTERFACE_PREFIX@ + identifier_of(app_id@),
{
    let identifier = dbus_identifier(app_id);
    INTERFACE_PREFIX.to_owned().concat(identifier.as_str())
}

/// The object path under which an application is exported.
pub fn object_path(app_id: &str) -> (path: String)
    ensures
        path@ == PATH_PREFIX@ + identifier_of(app_id@),
{
    let identifier = dbus_identifier(app_id);
    PATH_PREFIX.to_owned().concat(identifier.as_str())
}

} // verus!
