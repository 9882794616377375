//! Type paths as written in the hardware setup file: module path and type name of a sensor
//! driver, and the `@` marker that tells a type path from a plain string.
use vstd::prelude::*;
use crate::text::{
    before_first, chars_of, find_first, find_last_within, is_last_occurrence, last_occurrence,
    occurs_at,
};

verus! {

/// The separator of path segments, `::`.
pub open spec fn path_sep() -> Seq<char> {
    seq![':', ':']
}

/// The opening of generic arguments in turbofish form, `::<`.
pub open spec fn generics_open() -> Seq<char> {
    seq![':', ':', '<']
}

/// The path without its generic arguments: what comes before the first `::<`.
pub open spec fn spec_path_without_generics(path: Seq<char>) -> Seq<char> {
    before_first(path, generics_open())
}

/// The module part of a type path: everything before the last `::` of the path without its
/// generic arguments, or nothing when there is no `::`.
pub open spec fn spec_parent_module_path(path: Seq<char>) -> Seq<char> {
    let p = spec_path_without_generics(path);
    match last_occurrence(p, path_sep()) {
        Some(i) => p.take(i),
        None => Seq::empty(),
    }
}

/// The type name of a type path: the last segment of the path without its generic arguments.
pub open spec fn spec_type_name(path: Seq<char>) -> Seq<char> {
    let p = spec_path_without_generics(path);
    match last_occurrence(p, path_sep()) {
        Some(i) => p.skip(i + 2),
        None => p,
    }
}

/// Returns the position where the generic arguments of `path` start (the length of the path
/// when there are none).
fn generics_start(chars: &Vec<char>) -> (r: usize)
    ensures
        r <= chars@.len(),
        chars@.take(r as int) == spec_path_without_generics(chars@),
{
    let open = vec![':', ':', '<'];
    assert(open@ == generics_open());
    match find_first(chars, &open) {
        Some(i) => {
            i
        },
        None => {
            assert(chars@.take(chars@.len() as int) =~= chars@);
            chars.len()
        },
    }
}

/// Returns the path of the module containing the type designated by `path`.
///
/// For `a::b::C::<X>` this is `a::b`.
pub fn parse_parent_module_path(path: &str) -> (r: String)
    ensures
        r@ == spec_parent_module_path(path@),
{
    let chars = chars_of(path);
    let end = generics_start(&chars);
    let sep = vec![':', ':'];
    assert(sep@ == path_sep());
    match find_last_within(&chars, &sep, end) {
        Some(i) => {
            let p = Ghost(chars@.take(end as int));
            let s = path.substring_char(0, i);
            assert(s@ =~= p@.take(i as int));
            String::from_str(s)
        },
        None => String::new(),
    }
}

/// Returns the name of the type designated by `path`, without its module path and generic
/// arguments.
///
/// For `a::b::C::<X>` this is `C`.
pub fn parse_type_name_from_type_path(path: &str) -> (r: &str)
    ensures
        r@ == spec_type_name(path@),
{
    let chars = chars_of(path);
    let end = generics_start(&chars);
    let sep = vec![':', ':'];
    assert(sep@ == path_sep());
    match find_last_within(&chars, &sep, end) {
        Some(i) => {
            let p = Ghost(chars@.take(end as int));
            let s = path.substring_char(i + 2, end);
            assert(s@ =~= p@.skip(i + 2));
            s
        },
        None => {
            let s = path.substring_char(0, end);
            assert(s@ =~= chars@.take(end as int));
            s
        },
    }
}

/// The module path, the separator and the type name put back together give the path without
/// its generic arguments, whenever the path has a module part.
pub proof fn law_module_path_and_type_name_rebuild_path(path: Seq<char>)
    requires
        last_occurrence(spec_path_without_generics(path), path_sep()) is Some,
    ensures
        spec_parent_module_path(path) + path_sep() + spec_type_name(path)
            == spec_path_without_generics(path),
{
    let p = spec_path_without_generics(path);
    let i = last_occurrence(p, path_sep())->0;
    crate::text::lemma_last_occurrence_spec(p, path_sep());
    assert(p.subrange(i, i + 2) =~= path_sep());
    assert(p.take(i) + path_sep() + p.skip(i + 2) =~= p);
}

/// A path without any `::` has an empty module path and is its own type name.
pub proof fn law_path_without_separator(path: Seq<char>)
    requires
        last_occurrence(spec_path_without_generics(path), path_sep()) is None,
    ensures
        spec_parent_module_path(path) == Seq::<char>::empty(),
        spec_type_name(path) == spec_path_without_generics(path),
{
}

/// The type name of a path never holds the separator `::`.
pub proof fn law_type_name_has_no_separator(path: Seq<char>)
    ensures
        forall|k: int| !#[trigger] occurs_at(spec_type_name(path), path_sep(), k),
{
    let p = spec_path_without_generics(path);
    crate::text::lemma_last_occurrence_spec(p, path_sep());
    match last_occurrence(p, path_sep()) {
        Some(i) => {
            let t = p.skip(i + 2);
            assert forall|k: int| !#[trigger] occurs_at(t, path_sep(), k) by {
                if occurs_at(t, path_sep(), k) {
                    assert(p.subrange(i + 2 + k, i + 2 + k + 2) =~= t.subrange(k, k + 2));
                    assert(occurs_at(p, path_sep(), i + 2 + k));
                }
            }
        },
        None => {},
    }
}

} // verus!
