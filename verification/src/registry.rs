//! The module-registry merge: a directory's registry file declares each
//! generated module on a line of its own, and registering a name appends
//! its canonical line exactly once, never disturbing what is already there.

use vstd::prelude::*;
use vstd::string::StringExecFns;
use crate::text::contains_str;
use crate::text::contains_text;
use crate::text::occurs_at;

verus! {

/// The text that declares `name` as a module: the form an existing
/// registry is searched for.
pub open spec fn decl_form(name: Seq<char>) -> Seq<char> {
    "pub mod "@ + name
}

/// The full canonical registration line for `name`, terminator included.
pub open spec fn decl_line(name: Seq<char>) -> Seq<char> {
    decl_form(name) + ";\n"@
}

/// The registry content after registering `name` into `existing`
/// (`None` when no registry file exists yet).
pub open spec fn merged_content(existing: Option<Seq<char>>, name: Seq<char>) -> Seq<char> {
    match existing {
        Option::None => decl_line(name),
        Option::Some(c) => if contains_text(c, decl_form(name)) {
            c
        } else {
            c + decl_line(name)
        },
    }
}

/// The view of an optional borrowed text.
pub open spec fn content_view(existing: Option<&str>) -> Option<Seq<char>> {
    match existing {
        Option::None => Option::None,
        Option::Some(c) => Option::Some(c@),
    }
}

/// The canonical registration line for `name`.
pub fn registration_line(name: &str) -> (r: String)
    ensures
        r@ == decl_line(name@),
{
    let mut r = "pub mod ".to_owned();
    r.append(name);
    r.append(";\n");
    r
}

/// What a merge decided: the exact content the registry file must hold
/// afterwards, and whether that differs from what was there (so the caller
/// knows whether a write is due at all).
pub struct MergeOutcome {
    pub content: String,
    pub changed: bool,
}

/// Merges the declaration of `name` into the current registry content:
/// creates the single canonical line when there is no registry yet, leaves
/// the content alone when the declaration is already present, and appends
/// the canonical line at the end otherwise.
pub fn merge_registry(existing: Option<&str>, name: &str) -> (r: MergeOutcome)
    ensures
        r.content@ == merged_content(content_view(existing), name@),
        r.changed == (match existing {
            Option::None => true,
            Option::Some(c) => !contains_text(c@, decl_form(name@)),
        }),
{
    match existing {
        Option::None => MergeOutcome { content: registration_line(name), changed: true },
        Option::Some(c) => {
            let mut form = "pub mod ".to_owned();
            form.append(name);
            if contains_str(c, form.as_str()) {
                MergeOutcome { content: c.to_owned(), changed: false }
            } else {
                let mut content = c.to_owned();
                let line = registration_line(name);
                content.append(line.as_str());
                MergeOutcome { content, changed: true }
            }
        },
    }
}

/// After any merge, the registry declares `name`.
pub proof fn lemma_merged_declares(existing: Option<Seq<char>>, name: Seq<char>)
    ensures
        contains_text(merged_content(existing, name), decl_form(name)),
{
    let form = decl_form(name);
    match existing {
        Option::None => {
            assert(decl_line(name).subrange(0, form.len() as int) =~= form);
            assert(occurs_at(decl_line(name), form, 0));
        },
        Option::Some(c) => {
            if !contains_text(c, form) {
                let merged = c + decl_line(name);
                assert(merged.subrange(c.len() as int, c.len() as int + form.len() as int)
                    =~= form);
                assert(occurs_at(merged, form, c.len() as int));
            }
        },
    }
}

/// Registering the same name a second time changes nothing: the registry
/// after the second merge is identical to the registry after the first.
pub proof fn lemma_register_idempotent(existing: Option<Seq<char>>, name: Seq<char>)
    ensures
        merged_content(Some(merged_content(existing, name)), name) == merged_content(
            existing,
            name,
        ),
{
    lemma_merged_declares(existing, name);
}

/// A merge never disturbs prior content: what the registry held stays as
/// an unchanged prefix, in its original order.
pub proof fn lemma_merge_preserves_content(c: Seq<char>, name: Seq<char>)
    ensures
        merged_content(Some(c), name).len() >= c.len(),
        merged_content(Some(c), name).subrange(0, c.len() as int) == c,
{
    if !contains_text(c, decl_form(name)) {
        assert((c + decl_line(name)).subrange(0, c.len() as int) =~= c);
    } else {
        assert(c.subrange(0, c.len() as int) =~= c);
    }
}

/// Registering `first` and then `second` in a directory with no registry
/// yet yields exactly the two canonical lines, the one for `first` ahead
/// of the one for `second` — provided the line for `first` does not
/// already embed the declaration form of `second`.
pub proof fn lemma_register_order(first: Seq<char>, second: Seq<char>)
    requires
        !contains_text(decl_line(first), decl_form(second)),
    ensures
        merged_content(Some(merged_content(None, first)), second) == decl_line(first) + decl_line(
            second,
        ),
{
}

/// The path of the registry file inside `dir_path`.
pub fn registry_file_path(dir_path: &str) -> (r: String)
    ensures
        r@ == dir_path@ + "/mod.rs"@,
{
    let mut r = dir_path.to_owned();
    r.append("/mod.rs");
    r
}

} // verus!
