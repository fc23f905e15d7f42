//! The workspace descriptor: its text as written at creation, and the field
//! read back when a workspace is opened.
use vstd::prelude::*;
use crate::toml_doc::{entries_under, toml_strings, value_as_str, value_get};

verus! {

/// The key path of the project name inside the descriptor.
pub open spec fn game_name_path() -> Seq<Seq<char>> {
    seq!["game"@, "name"@]
}

/// The descriptor text for a project of the given name and author: one
/// `game` table with the name, version, channel markers and author list.
pub open spec fn descriptor_spec(name: Seq<char>, author: Seq<char>) -> Seq<char> {
    "[game]\nname = \""@ + name + "\"\nversion = \"0.0.1\"\nzeus_version = \"develop\"\nathena_version = \"develop\"\nauthors = [\""@
        + author + "\"]"@
}

/// Writes the descriptor text for a project of the given name and author.
pub fn descriptor_text(name: &str, author: &str) -> (r: String)
    ensures
        r@ == descriptor_spec(name@, author@),
{
    let mut t = String::from_str("[game]\nname = \"");
    t.append(name);
    t.append(
        "\"\nversion = \"0.0.1\"\nzeus_version = \"develop\"\nathena_version = \"develop\"\nauthors = [\"",
    );
    t.append(author);
    t.append("\"]");
    t
}

/// The project name that a parsed descriptor holds, if `game.name` is a string.
pub fn game_name_of(doc: &toml::Value) -> (r: Option<String>)
    ensures
        r is Some <==> toml_strings(*doc).contains_key(game_name_path()),
        r matches Some(n) ==> n@ == toml_strings(*doc)[game_name_path()],
{
    let ghost m = toml_strings(*doc);
    let ghost p_name: Seq<Seq<char>> = seq!["name"@];
    assert(seq!["game"@] + p_name =~= game_name_path());
    assert(seq!["name"@] + Seq::<Seq<char>>::empty() =~= p_name);
    match value_get(doc, "game") {
        None => {
            assert(!entries_under(m, "game"@).dom().contains(p_name));
            None
        },
        Some(game) => match value_get(game, "name") {
            None => {
                let ghost e = Seq::<Seq<char>>::empty();
                assert(!entries_under(toml_strings(*game), "name"@).dom().contains(e));
                None
            },
            Some(name) => match value_as_str(name) {
                None => None,
                Some(s) => Some(String::from_str(s)),
            },
        },
    }
}

} // verus!
