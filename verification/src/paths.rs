//! File paths as texts, in the notation of the system that the program runs on.
//!
//! On POSIX systems the parts of a path are separated by `/`, and a path that starts with one is
//! absolute. On Windows `\` separates too, and a path may begin with a volume.

use vstd::prelude::*;

use crate::text;
use crate::text::{chars_of, join_texts, push_text, split_text, string_between, text_eq};
use crate::volumes;
use crate::volumes::{
    char_is_slash, mark_volume, unify_separators, volume_is_verbatim, volume_of, Volume,
};

verus! {

/// The notation of paths.
#[derive(Clone, Copy, Debug, PartialEq, Eq, Structural)]
pub enum PathStyle {
    Posix,
    Windows,
}

/// A path whose names start at a root, as far as a separator before them says so.
pub open spec fn is_rooted(style: PathStyle, path: Seq<char>) -> bool {
    match style {
        PathStyle::Posix => path.len() > 0 && path[0] == '/',
        PathStyle::Windows => volumes::slash_at(path, volumes::volume_len(path)),
    }
}

/// A path that means the same wherever it is used: on POSIX systems one that starts at the root,
/// on Windows one that names its volume and starts at the root of it.
pub open spec fn is_absolute(style: PathStyle, path: Seq<char>) -> bool {
    match style {
        PathStyle::Posix => is_rooted(style, path),
        PathStyle::Windows => {
            &&& volumes::volume(path) != Volume::Nothing
            &&& volumes::volume(path) == Volume::Drive ==> is_rooted(style, path)
        },
    }
}

/// A path in which dots and `/` stand for themselves.
pub open spec fn is_verbatim(style: PathStyle, path: Seq<char>) -> bool {
    style == PathStyle::Windows && volumes::is_verbatim(volumes::volume(path))
}

/// The part of a Windows path behind its volume and its root.
pub open spec fn body(path: Seq<char>) -> Seq<char> {
    let len = volumes::volume_len(path);
    if is_rooted(PathStyle::Windows, path) {
        path.skip(len + 1)
    } else {
        path.skip(len)
    }
}

/// The pieces between the separators of a path.
pub open spec fn pieces(style: PathStyle, path: Seq<char>) -> Seq<Seq<char>> {
    if style == PathStyle::Posix {
        text::split_on(path, '/')
    } else if is_verbatim(style, path) {
        text::split_on(body(path), '\\')
    } else {
        text::split_on(volumes::unified_separators(body(path)), '/')
    }
}

/// A piece of a path that names something: not empty and, unless dots stand for themselves, not
/// a plain dot.
pub open spec fn is_name(piece: Seq<char>, dots: bool) -> bool {
    piece.len() > 0 && (dots || piece != "."@)
}

/// The pieces that name something, in order.
pub open spec fn names_in(pieces: Seq<Seq<char>>, dots: bool) -> Seq<Seq<char>>
    decreases pieces.len(),
{
    if pieces.len() == 0 {
        Seq::empty()
    } else if is_name(pieces.last(), dots) {
        names_in(pieces.drop_last(), dots).push(pieces.last())
    } else {
        names_in(pieces.drop_last(), dots)
    }
}

/// The names of a path, in order. Repeated separators and inner dots do not count.
pub open spec fn names(style: PathStyle, path: Seq<char>) -> Seq<Seq<char>> {
    names_in(pieces(style, path), is_verbatim(style, path))
}

/// The component for a leading dot.
pub open spec fn leading_dot(style: PathStyle, path: Seq<char>) -> Seq<Seq<char>> {
    if !is_rooted(style, path) && pieces(style, path)[0] == "."@ {
        seq!["."@]
    } else {
        Seq::empty()
    }
}

/// The components of a path before its names: the volume, the root, or a leading dot. A share or
/// a device has a root even where no separator follows it.
pub open spec fn lead(style: PathStyle, path: Seq<char>) -> Seq<Seq<char>> {
    match style {
        PathStyle::Posix => if is_rooted(style, path) {
            seq!["/"@]
        } else {
            leading_dot(style, path)
        },
        PathStyle::Windows => {
            let volume = volumes::volume(path);
            if volume == Volume::Nothing {
                if is_rooted(style, path) {
                    seq!["\\"@]
                } else {
                    leading_dot(style, path)
                }
            } else if is_rooted(style, path) || volume == Volume::Share || volume
                == Volume::Device {
                seq![volumes::volume_mark(path), "\\"@]
            } else {
                seq![volumes::volume_mark(path)]
            }
        },
    }
}

/// The components of a path.
pub open spec fn components(style: PathStyle, path: Seq<char>) -> Seq<Seq<char>> {
    lead(style, path) + names(style, path)
}

/// Two paths with the same components.
pub open spec fn same_path(style: PathStyle, a: Seq<char>, b: Seq<char>) -> bool {
    components(style, a) == components(style, b)
}

/// A path that lies at `base` or below it, component by component.
pub open spec fn lies_within(style: PathStyle, path: Seq<char>, base: Seq<char>) -> bool {
    components(style, base).is_prefix_of(components(style, path))
}

/// A path that lies within one of the given bases.
pub open spec fn lies_within_any(
    style: PathStyle,
    path: Seq<char>,
    bases: Seq<Seq<char>>,
) -> bool {
    exists|i: int| 0 <= i < bases.len() && lies_within(style, path, #[trigger] bases[i])
}

/// A component that is an ordinary name.
pub open spec fn is_ordinary(name: Seq<char>) -> bool {
    name != "."@ && name != ".."@
}

/// The names that are reached from some names by following others: `..` leaves the last name.
pub open spec fn followed(from: Seq<Seq<char>>, more: Seq<Seq<char>>) -> Seq<Seq<char>>
    decreases more.len(),
{
    if more.len() == 0 {
        from
    } else {
        let before = followed(from, more.drop_last());
        if more.last() != ".."@ {
            before.push(more.last())
        } else if before.len() > 0 && is_ordinary(before.last()) {
            before.drop_last()
        } else {
            before
        }
    }
}

/// `path` seen from a verbatim path: `..` is followed, because it would stand for itself there.
pub open spec fn join_verbatim(base: Seq<char>, path: Seq<char>) -> Seq<char> {
    let style = PathStyle::Windows;
    let from = if is_rooted(style, path) {
        Seq::empty()
    } else {
        names(style, base)
    };
    let all = followed(from, names(style, path));
    let root = if is_rooted(style, base) || is_rooted(style, path) || all.len() > 0 {
        "\\"@
    } else {
        Seq::empty()
    };
    base.take(volumes::volume_len(base)) + root + text::joined(all, "\\"@)
}

/// A path that takes no separator before what is put behind it: the empty path, one that ends in
/// a separator, and a bare drive.
pub open spec fn is_open_ended(base: Seq<char>) -> bool {
    base.len() == 0 || volumes::is_slash(base.last()) || (volumes::volume(base) == Volume::Drive
        && base.len() == 2)
}

/// `path` seen from `base`. On POSIX systems an absolute path stands for itself. On Windows so
/// does one that names a volume, and one that only starts at a root keeps the volume of `base`.
pub open spec fn join(style: PathStyle, base: Seq<char>, path: Seq<char>) -> Seq<char> {
    match style {
        PathStyle::Posix => if is_absolute(style, path) {
            path
        } else if base.len() == 0 || base.last() == '/' {
            base + path
        } else {
            base + "/"@ + path
        },
        PathStyle::Windows => if volumes::volume(path) != Volume::Nothing {
            path
        } else if is_verbatim(style, base) && path.len() > 0 {
            join_verbatim(base, path)
        } else if is_rooted(style, path) {
            base.take(volumes::volume_len(base)) + path
        } else if is_open_ended(base) {
            base + path
        } else {
            base + "\\"@ + path
        },
    }
}

/// The last component, when it is an ordinary name.
pub open spec fn file_name(style: PathStyle, path: Seq<char>) -> Option<Seq<char>> {
    let all = names(style, path);
    if all.len() > 0 && is_ordinary(all.last()) {
        Some(all.last())
    } else {
        None
    }
}

/// The shortest beginning of a path, of at least the given length, that has the given components.
pub open spec fn beginning_with(
    style: PathStyle,
    path: Seq<char>,
    parts: Seq<Seq<char>>,
    from: int,
) -> Option<Seq<char>>
    decreases path.len() + 1 - from,
{
    if from < 0 || from > path.len() {
        None
    } else if components(style, path.take(from)) == parts {
        Some(path.take(from))
    } else {
        beginning_with(style, path, parts, from + 1)
    }
}

/// How many characters of a path stand before its names.
pub open spec fn lead_len(style: PathStyle, path: Seq<char>) -> int {
    let volume: int = if style == PathStyle::Windows {
        volumes::volume_len(path)
    } else {
        0
    };
    if is_rooted(style, path) {
        volume + 1
    } else {
        volume
    }
}

/// The path without its last component. A root, a volume and the empty path have no parent.
pub open spec fn parent(style: PathStyle, path: Seq<char>) -> Option<Seq<char>> {
    let all = components(style, path);
    if names(style, path).len() > 0 {
        beginning_with(style, path, all.drop_last(), lead_len(style, path))
    } else if all.len() > 0 && all.last() == "."@ {
        Some(Seq::empty())
    } else {
        None
    }
}

/// Whether the names of a path start at a root.
fn path_is_rooted(style: PathStyle, path: &Vec<char>) -> (rooted: bool)
    ensures
        rooted == is_rooted(style, path@),
{
    match style {
        PathStyle::Posix => path.len() > 0 && path[0] == '/',
        PathStyle::Windows => {
            let found = volume_of(path);
            found.1 < path.len() && char_is_slash(path[found.1])
        },
    }
}

/// Whether a path means the same wherever it is used.
pub fn path_is_absolute(style: PathStyle, path: &str) -> (absolute: bool)
    ensures
        absolute == is_absolute(style, path@),
{
    let chars = chars_of(path);
    let rooted = path_is_rooted(style, &chars);
    match style {
        PathStyle::Posix => rooted,
        PathStyle::Windows => match volume_of(&chars).0 {
            Volume::Nothing => false,
            Volume::Drive => rooted,
            _ => true,
        },
    }
}

/// Whether dots and `/` stand for themselves in a path.
fn path_is_verbatim(style: PathStyle, path: &Vec<char>) -> (verbatim: bool)
    ensures
        verbatim == is_verbatim(style, path@),
{
    match style {
        PathStyle::Posix => false,
        PathStyle::Windows => volume_is_verbatim(volume_of(path).0),
    }
}

/// The part of a Windows path behind its volume and its root.
fn body_of(path: &Vec<char>) -> (out: String)
    ensures
        out@ == body(path@),
{
    let len = volume_of(path).1;
    proof {
        volumes::lemma_volume_bounds(path@);
    }
    let start: usize = if path_is_rooted(PathStyle::Windows, path) {
        len + 1
    } else {
        len
    };
    assert(path@.skip(start as int) == path@.subrange(start as int, path@.len() as int));
    string_between(path, start, path.len())
}

/// The pieces between the separators of a path.
fn pieces_of(style: PathStyle, path: &str) -> (out: Vec<String>)
    ensures
        text::texts(out@) == pieces(style, path@),
        out.len() >= 1,
{
    proof {
        text::lemma_split_has_piece(path@, '/');
        text::lemma_split_has_piece(body(path@), '\\');
        text::lemma_split_has_piece(volumes::unified_separators(body(path@)), '/');
    }
    let out = match style {
        PathStyle::Posix => split_text(path, '/'),
        PathStyle::Windows => {
            let chars = chars_of(path);
            if path_is_verbatim(style, &chars) {
                split_text(&body_of(&chars), '\\')
            } else {
                split_text(&unify_separators(&body_of(&chars)), '/')
            }
        },
    };
    assert(text::texts(out@).len() == out.len());
    out
}

/// The names of a path, in order.
fn names_of(style: PathStyle, path: &str) -> (out: Vec<String>)
    ensures
        text::texts(out@) == names(style, path@),
{
    let found = pieces_of(style, path);
    let dots = path_is_verbatim(style, &chars_of(path));
    let ghost parts = pieces(style, path@);
    let mut out: Vec<String> = Vec::new();
    let mut i: usize = 0;
    assert(text::texts(out@) == names_in(parts.take(0), dots));
    while i < found.len()
        invariant
            i <= found.len(),
            text::texts(found@) == parts,
            text::texts(out@) == names_in(parts.take(i as int), dots),
        decreases found.len() - i,
    {
        assert(parts.take(i + 1).drop_last() == parts.take(i as int));
        assert(parts.take(i + 1).last() == found@[i as int]@);
        if !found[i].as_str().is_empty() && (dots || !text_eq(&found[i], ".")) {
            push_text(&mut out, found[i].clone());
            assert(text::texts(out@) == names_in(parts.take(i + 1), dots));
        }
        i = i + 1;
    }
    assert(parts.take(i as int) == parts);
    out
}

/// The component for a leading dot.
fn leading_dot_of(style: PathStyle, path: &str) -> (out: Vec<String>)
    ensures
        text::texts(out@) == leading_dot(style, path@),
{
    let found = pieces_of(style, path);
    let mut out: Vec<String> = Vec::new();
    assert(text::texts(found@)[0] == found@[0]@);
    assert(text::texts(out@) == Seq::<Seq<char>>::empty());
    if !path_is_rooted(style, &chars_of(path)) && text_eq(&found[0], ".") {
        push_text(&mut out, ".".to_owned());
        assert(text::texts(out@) == seq!["."@]);
    }
    out
}

/// The components of a path before its names.
fn lead_of(style: PathStyle, path: &str) -> (out: Vec<String>)
    ensures
        text::texts(out@) == lead(style, path@),
{
    let chars = chars_of(path);
    let rooted = path_is_rooted(style, &chars);
    let mut out: Vec<String> = Vec::new();
    assert(text::texts(out@) == Seq::<Seq<char>>::empty());
    match style {
        PathStyle::Posix => {
            if !rooted {
                return leading_dot_of(style, path);
            }
            push_text(&mut out, "/".to_owned());
            assert(text::texts(out@) == seq!["/"@]);
        },
        PathStyle::Windows => {
            let volume = volume_of(&chars).0;
            if volume == Volume::Nothing {
                if !rooted {
                    return leading_dot_of(style, path);
                }
                push_text(&mut out, "\\".to_owned());
                assert(text::texts(out@) == seq!["\\"@]);
            } else {
                push_text(&mut out, mark_volume(&chars));
                assert(text::texts(out@) == seq![volumes::volume_mark(path@)]);
                if rooted || volume == Volume::Share || volume == Volume::Device {
                    push_text(&mut out, "\\".to_owned());
                    assert(text::texts(out@) == seq![volumes::volume_mark(path@), "\\"@]);
                }
            }
        },
    }
    out
}

/// The components of a path.
pub fn path_components(style: PathStyle, path: &str) -> (out: Vec<String>)
    ensures
        text::texts(out@) == components(style, path@),
{
    let mut out = lead_of(style, path);
    let found = names_of(style, path);
    let ghost before = lead(style, path@);
    let ghost after = names(style, path@);
    let mut i: usize = 0;
    assert(before + after.take(0) == before);
    while i < found.len()
        invariant
            i <= found.len(),
            text::texts(found@) == after,
            text::texts(out@) == before + after.take(i as int),
        decreases found.len() - i,
    {
        assert(text::texts(found@)[i as int] == found@[i as int]@);
        push_text(&mut out, found[i].clone());
        assert(before + after.take(i + 1) == (before + after.take(i as int)).push(
            found@[i as int]@,
        ));
        i = i + 1;
    }
    assert(after.take(i as int) == after);
    out
}

/// Whether the first list of texts is a beginning of the second.
fn is_beginning(short: &Vec<String>, long: &Vec<String>) -> (yes: bool)
    ensures
        yes == text::texts(short@).is_prefix_of(text::texts(long@)),
{
    if short.len() > long.len() {
        return false;
    }
    let mut i: usize = 0;
    while i < short.len()
        invariant
            i <= short.len() <= long.len(),
            forall|k: int| 0 <= k < i ==> text::texts(short@)[k] == text::texts(long@)[k],
        decreases short.len() - i,
    {
        assert(text::texts(short@)[i as int] == short@[i as int]@);
        assert(text::texts(long@)[i as int] == long@[i as int]@);
        if !text_eq(&short[i], &long[i]) {
            assert(text::texts(long@).subrange(0, short.len() as int)[i as int] != text::texts(short@)[i as int]);
            return false;
        }
        i = i + 1;
    }
    assert(text::texts(short@) == text::texts(long@).subrange(0, short.len() as int));
    true
}

/// Whether two paths have the same components.
pub fn paths_match(style: PathStyle, a: &str, b: &str) -> (same: bool)
    ensures
        same == same_path(style, a@, b@),
{
    let left = path_components(style, a);
    let right = path_components(style, b);
    let same = left.len() == right.len() && is_beginning(&left, &right);
    assert(text::texts(right@).subrange(0, right.len() as int) == text::texts(right@));
    same
}

/// Whether a path lies at `base` or below it.
pub fn path_within(style: PathStyle, path: &str, base: &str) -> (within: bool)
    ensures
        within == lies_within(style, path@, base@),
{
    let inner = path_components(style, path);
    let outer = path_components(style, base);
    is_beginning(&outer, &inner)
}

/// Whether a path lies within one of the given bases.
pub fn path_within_any(style: PathStyle, path: &str, bases: &Vec<String>) -> (within: bool)
    ensures
        within == lies_within_any(style, path@, text::texts(bases@)),
{
    let mut i: usize = 0;
    while i < bases.len()
        invariant
            i <= bases.len(),
            forall|k: int|
                0 <= k < i ==> !lies_within(style, path@, #[trigger] text::texts(bases@)[k]),
        decreases bases.len() - i,
    {
        assert(text::texts(bases@)[i as int] == bases@[i as int]@);
        if path_within(style, path, &bases[i]) {
            return true;
        }
        i = i + 1;
    }
    false
}

/// The names that are reached from some names by following others.
fn follow(from: Vec<String>, more: &Vec<String>) -> (out: Vec<String>)
    ensures
        text::texts(out@) == followed(text::texts(from@), text::texts(more@)),
{
    let ghost start = text::texts(from@);
    let ghost steps = text::texts(more@);
    let mut out = from;
    let mut i: usize = 0;
    assert(followed(start, steps.take(0)) == start);
    while i < more.len()
        invariant
            i <= more.len(),
            steps == text::texts(more@),
            text::texts(out@) == followed(start, steps.take(i as int)),
        decreases more.len() - i,
    {
        assert(steps.take(i + 1).drop_last() == steps.take(i as int));
        assert(steps.take(i + 1).last() == more@[i as int]@);
        if !text_eq(&more[i], "..") {
            push_text(&mut out, more[i].clone());
        } else if out.len() > 0 {
            let last = &out[out.len() - 1];
            assert(text::texts(out@).last() == last@);
            if !text_eq(last, ".") && !text_eq(last, "..") {
                let ghost longer = text::texts(out@);
                out.pop();
                assert(text::texts(out@) == longer.drop_last());
            }
        }
        i = i + 1;
    }
    assert(steps.take(i as int) == steps);
    out
}

/// `path` seen from a verbatim path.
fn join_to_verbatim(base: &Vec<char>, path: &str) -> (out: String)
    ensures
        out@ == join_verbatim(base@, path@),
{
    let style = PathStyle::Windows;
    let len = volume_of(base).1;
    proof {
        volumes::lemma_volume_bounds(base@);
    }
    let rooted = path_is_rooted(style, &chars_of(path));
    let whole = string_between(base, 0, base.len());
    assert(base@.subrange(0, base@.len() as int) == base@);
    let from: Vec<String> = if rooted {
        Vec::new()
    } else {
        names_of(style, &whole)
    };
    assert(rooted ==> text::texts(from@) == Seq::<Seq<char>>::empty());
    let all = follow(from, &names_of(style, path));
    assert(text::texts(all@).len() == all.len());
    let mut out = string_between(base, 0, len);
    assert(base@.take(len as int) == base@.subrange(0, len as int));
    if rooted || path_is_rooted(style, base) || all.len() > 0 {
        out.append("\\");
    } else {
        assert(out@ + Seq::<char>::empty() == out@);
    }
    out.append(&join_texts(&all, "\\"));
    out
}

/// Whether a path takes no separator before what is put behind it.
fn path_is_open_ended(base: &Vec<char>) -> (yes: bool)
    ensures
        yes == is_open_ended(base@),
{
    base.len() == 0 || char_is_slash(base[base.len() - 1]) || (volume_of(base).0 == Volume::Drive
        && base.len() == 2)
}

/// `path` seen from `base`.
pub fn join_path(style: PathStyle, base: &str, path: &str) -> (out: String)
    ensures
        out@ == join(style, base@, path@),
{
    let start = chars_of(base);
    let more = chars_of(path);
    match style {
        PathStyle::Posix => {
            if path_is_absolute(style, path) {
                return path.to_owned();
            }
            let mut out = base.to_owned();
            if start.len() > 0 && start[start.len() - 1] != '/' {
                out.append("/");
            }
            out.append(path);
            out
        },
        PathStyle::Windows => {
            if volume_of(&more).0 != Volume::Nothing {
                path.to_owned()
            } else if path_is_verbatim(style, &start) && more.len() > 0 {
                join_to_verbatim(&start, path)
            } else if path_is_rooted(style, &more) {
                proof {
                    volumes::lemma_volume_bounds(base@);
                }
                let len = volume_of(&start).1;
                assert(base@.take(len as int) == base@.subrange(0, len as int));
                let mut out = string_between(&start, 0, len);
                out.append(path);
                out
            } else {
                let mut out = base.to_owned();
                if !path_is_open_ended(&start) {
                    out.append("\\");
                }
                out.append(path);
                out
            }
        },
    }
}

/// The last component of a path, when it is an ordinary name.
pub fn path_file_name(style: PathStyle, path: &str) -> (name: Option<String>)
    ensures
        text::opt_text(name) == file_name(style, path@),
{
    let all = names_of(style, path);
    assert(text::texts(all@).len() == all.len());
    if all.len() == 0 {
        return None;
    }
    let last = &all[all.len() - 1];
    assert(text::texts(all@).last() == last@);
    if text_eq(last, ".") || text_eq(last, "..") {
        None
    } else {
        Some(last.clone())
    }
}

/// How many characters of a path stand before its names.
fn lead_len_of(style: PathStyle, path: &Vec<char>) -> (len: usize)
    ensures
        len == lead_len(style, path@),
        len <= path.len(),
{
    proof {
        volumes::lemma_volume_bounds(path@);
    }
    let volume: usize = match style {
        PathStyle::Posix => 0,
        PathStyle::Windows => volume_of(path).1,
    };
    if path_is_rooted(style, path) {
        assert(volume < path.len());
        volume + 1
    } else {
        volume
    }
}

/// The path without its last component.
pub fn path_parent(style: PathStyle, path: &str) -> (out: Option<String>)
    ensures
        text::opt_text(out) == parent(style, path@),
{
    let mut all = path_components(style, path);
    let found = names_of(style, path);
    assert(text::texts(all@).len() == all.len());
    assert(text::texts(found@).len() == found.len());
    if found.len() == 0 {
        if all.len() == 0 {
            return None;
        }
        assert(text::texts(all@).last() == all@[all.len() - 1]@);
        if text_eq(&all[all.len() - 1], ".") {
            let nothing = String::new();
            assert(nothing@ == Seq::<char>::empty());
            return Some(nothing);
        }
        return None;
    }
    let ghost parts = components(style, path@);
    all.pop();
    assert(text::texts(all@) == parts.drop_last());
    let chars = chars_of(path);
    let mut n: usize = lead_len_of(style, &chars);
    while n < chars.len()
        invariant
            chars@ == path@,
            n <= chars.len(),
            text::texts(all@) == parts.drop_last(),
            parent(style, path@) == beginning_with(style, path@, parts.drop_last(), n as int),
        decreases chars.len() - n,
    {
        if beginning_has(style, &chars, n, &all) {
            return Some(string_between(&chars, 0, n));
        }
        n = n + 1;
    }
    assert(beginning_with(style, path@, parts.drop_last(), n + 1) is None);
    if beginning_has(style, &chars, n, &all) {
        Some(string_between(&chars, 0, n))
    } else {
        None
    }
}

/// Whether the first `n` characters of a path have the given components.
fn beginning_has(style: PathStyle, chars: &Vec<char>, n: usize, parts: &Vec<String>) -> (yes: bool)
    requires
        n <= chars.len(),
    ensures
        yes == (components(style, chars@.take(n as int)) == text::texts(parts@)),
        chars@.take(n as int) == chars@.subrange(0, n as int),
{
    let head = string_between(chars, 0, n);
    let found = path_components(style, &head);
    assert(text::texts(parts@).subrange(0, parts.len() as int) == text::texts(parts@));
    assert(text::texts(found@).len() == found.len());
    found.len() == parts.len() && is_beginning(&found, parts)
}

/// Splitting takes two texts apart that a separator joins.
proof fn lemma_split_of_joined(a: Seq<char>, b: Seq<char>, sep: char)
    ensures
        text::split_on(a + seq![sep] + b, sep) == text::split_on(a, sep) + text::split_on(b, sep),
    decreases b.len(),
{
    let whole = a + seq![sep] + b;
    text::lemma_split_has_piece(a, sep);
    text::lemma_split_has_piece(b, sep);
    if b.len() == 0 {
        assert(whole.drop_last() == a);
        assert(text::split_on(b, sep) == seq![Seq::<char>::empty()]);
        assert(text::split_on(whole, sep) == text::split_on(a, sep) + text::split_on(b, sep));
    } else {
        let shorter = b.drop_last();
        lemma_split_of_joined(a, shorter, sep);
        text::lemma_split_has_piece(shorter, sep);
        assert(whole.drop_last() == a + seq![sep] + shorter);
        assert(whole.last() == b.last());
        let before = text::split_on(a, sep) + text::split_on(shorter, sep);
        assert(before.drop_last() == text::split_on(a, sep) + text::split_on(
            shorter,
            sep,
        ).drop_last());
        assert(before.last() == text::split_on(shorter, sep).last());
        assert(text::split_on(whole, sep) =~= text::split_on(a, sep) + text::split_on(b, sep));
    }
}

/// The names in two lists of pieces are those of the first and those of the second.
proof fn lemma_names_in_both(x: Seq<Seq<char>>, y: Seq<Seq<char>>, dots: bool)
    ensures
        names_in(x + y, dots) == names_in(x, dots) + names_in(y, dots),
    decreases y.len(),
{
    if y.len() == 0 {
        assert(x + y == x);
        assert(names_in(x, dots) + names_in(y, dots) == names_in(x, dots));
    } else {
        lemma_names_in_both(x, y.drop_last(), dots);
        assert((x + y).drop_last() == x + y.drop_last());
        assert((x + y).last() == y.last());
        assert(names_in(x + y, dots) =~= names_in(x, dots) + names_in(y, dots));
    }
}

/// The empty text has no names in it.
proof fn lemma_nothing_has_no_names(sep: char, dots: bool)
    ensures
        text::split_on(Seq::<char>::empty(), sep) == seq![Seq::<char>::empty()],
        names_in(text::split_on(Seq::<char>::empty(), sep), dots) == Seq::<Seq<char>>::empty(),
        text::split_on(Seq::<char>::empty(), sep)[0] != "."@,
{
    let none = text::split_on(Seq::<char>::empty(), sep);
    reveal_strlit(".");
    assert(none[0].len() != "."@.len());
    assert(none.drop_last() =~= Seq::<Seq<char>>::empty());
    assert(!is_name(none.last(), dots));
    assert(names_in(Seq::<Seq<char>>::empty(), dots) =~= Seq::<Seq<char>>::empty());
}

/// What is put behind a text adds its names, when a separator ends the text or stands between.
/// Here `a` is the text, `tail` what was put behind it, with the separator if there is one.
proof fn lemma_names_behind(a: Seq<char>, tail: Seq<char>, sep: char, dots: bool)
    requires
        a.len() > 0,
        a.last() == sep || (tail.len() > 0 && tail[0] == sep),
    ensures
        names_in(text::split_on(a, sep), dots).is_prefix_of(
            names_in(text::split_on(a + tail, sep), dots),
        ),
        a[0] != sep ==> text::split_on(a + tail, sep)[0] == text::split_on(a, sep)[0],
{
    lemma_nothing_has_no_names(sep, dots);
    let nothing = Seq::<char>::empty();
    if tail.len() > 0 && tail[0] == sep {
        let more = tail.skip(1);
        assert(a + tail =~= a + seq![sep] + more);
        lemma_split_of_joined(a, more, sep);
        lemma_names_in_both(text::split_on(a, sep), text::split_on(more, sep), dots);
        text::lemma_split_has_piece(a, sep);
        let old_names = names_in(text::split_on(a, sep), dots);
        let all = names_in(text::split_on(a + tail, sep), dots);
        assert(all.subrange(0, old_names.len() as int) =~= old_names);
    } else {
        let front = a.drop_last();
        assert(a =~= front + seq![sep] + nothing);
        assert(a + tail =~= front + seq![sep] + tail);
        lemma_split_of_joined(front, nothing, sep);
        lemma_split_of_joined(front, tail, sep);
        lemma_names_in_both(text::split_on(front, sep), text::split_on(nothing, sep), dots);
        lemma_names_in_both(text::split_on(front, sep), text::split_on(tail, sep), dots);
        text::lemma_split_has_piece(front, sep);
        let old_names = names_in(text::split_on(a, sep), dots);
        let all = names_in(text::split_on(a + tail, sep), dots);
        assert(old_names =~= names_in(text::split_on(front, sep), dots));
        assert(all.subrange(0, old_names.len() as int) =~= old_names);
    }
}

/// Components that begin alike, the rest of one beginning with the rest of the other.
proof fn lemma_longer_components(
    lead: Seq<Seq<char>>,
    short: Seq<Seq<char>>,
    long: Seq<Seq<char>>,
)
    requires
        short.is_prefix_of(long),
    ensures
        (lead + short).is_prefix_of(lead + long),
{
    let all = lead + long;
    let part = lead + short;
    assert(all.subrange(0, part.len() as int) =~= part) by {
        assert forall|i: int| 0 <= i < part.len() implies all[i] == part[i] by {
            if i >= lead.len() {
                assert(long.subrange(0, short.len() as int)[i - lead.len()] == long[i
                    - lead.len()]);
            }
        }
    }
}

/// A path that can be seen from `base` and then lies within it. On POSIX systems every path can
/// that is not absolute. On Windows the path neither names a volume nor starts at a root, `base`
/// keeps its volume, and a verbatim `base` is not left by `..`.
pub open spec fn can_lie_within(style: PathStyle, base: Seq<char>, path: Seq<char>) -> bool {
    match style {
        PathStyle::Posix => !is_absolute(style, path),
        PathStyle::Windows => {
            &&& volumes::volume(path) == Volume::Nothing
            &&& !is_rooted(style, path)
            &&& volumes::is_settled(base)
            &&& is_verbatim(style, base) ==> path.len() > 0 && !names(style, path).contains(".."@)
        },
    }
}

/// Joining on POSIX systems.
proof fn lemma_posix_join(base: Seq<char>, path: Seq<char>)
    requires
        !is_absolute(PathStyle::Posix, path),
    ensures
        lies_within(PathStyle::Posix, join(PathStyle::Posix, base, path), base),
{
    let style = PathStyle::Posix;
    reveal_strlit("/");
    assert("/"@ =~= seq!['/']);
    let joined = join(style, base, path);
    if base.len() == 0 {
        assert(base =~= Seq::<char>::empty());
        lemma_nothing_has_no_names('/', false);
        assert(components(style, base) =~= Seq::<Seq<char>>::empty());
    } else {
        let tail = if base.last() == '/' {
            path
        } else {
            "/"@ + path
        };
        assert(joined =~= base + tail);
        lemma_names_behind(base, tail, '/', false);
        assert(base[0] == joined[0]);
        assert(lead(style, base) == lead(style, joined));
        lemma_longer_components(lead(style, base), names(style, base), names(style, joined));
    }
}

/// Unifying the separators goes piece by piece.
proof fn lemma_unified_of_both(a: Seq<char>, b: Seq<char>)
    ensures
        volumes::unified_separators(a + b) == volumes::unified_separators(a)
            + volumes::unified_separators(b),
{
    assert(volumes::unified_separators(a + b) =~= volumes::unified_separators(a)
        + volumes::unified_separators(b));
}

/// Joining on Windows, where `base` is in no verbatim form.
proof fn lemma_windows_join(base: Seq<char>, path: Seq<char>)
    requires
        can_lie_within(PathStyle::Windows, base, path),
        !is_verbatim(PathStyle::Windows, base),
    ensures
        lies_within(PathStyle::Windows, join(PathStyle::Windows, base, path), base),
        volumes::is_settled(join(PathStyle::Windows, base, path)),
        volumes::volume(join(PathStyle::Windows, base, path)) == volumes::volume(base),
{
    let style = PathStyle::Windows;
    reveal_strlit("\\");
    assert("\\"@ =~= seq!['\\']);
    let joined = join(style, base, path);
    let tail = if is_open_ended(base) {
        path
    } else {
        "\\"@ + path
    };
    assert(joined =~= base + tail);
    assert(!volumes::slash_at(path, 0));
    volumes::lemma_volume_kept(base, tail);
    volumes::lemma_volume_bounds(base);
    lemma_nothing_has_no_names('/', false);
    let len = volumes::volume_len(base);
    let inner = body(base);
    let nothing = Seq::<char>::empty();
    if inner.len() == 0 {
        assert(inner =~= nothing);
        assert(volumes::unified_separators(inner) =~= nothing);
        assert(names(style, base) =~= Seq::<Seq<char>>::empty());
        assert(components(style, base) =~= lead(style, base));
        assert(lead(style, base).is_prefix_of(lead(style, joined))) by {
            if len == base.len() {
                assert(!is_rooted(style, base));
                if base.len() > 0 && volumes::volume(base) == Volume::Drive {
                    assert(lead(style, joined)[0] == lead(style, base)[0]);
                }
            } else {
                assert(joined[len] == base[len]);
            }
            assert(lead(style, joined).subrange(0, lead(style, base).len() as int)
                =~= lead(style, base));
        }
        let all = components(style, joined);
        let outer = lead(style, joined);
        assert forall|i: int| 0 <= i < lead(style, base).len() implies all[i] == lead(
            style,
            base,
        )[i] by {
            assert(outer.subrange(0, lead(style, base).len() as int)[i] == outer[i]);
        }
        assert(all.subrange(0, lead(style, base).len() as int) =~= lead(style, base));
    } else {
        assert(joined[len] == base[len]);
        assert(body(joined) =~= inner + tail);
        assert(inner.last() == base.last());
        lemma_unified_of_both(inner, tail);
        let flat = volumes::unified_separators(inner);
        let flat_tail = volumes::unified_separators(tail);
        assert(volumes::is_slash(base.last()) ==> flat.last() == '/');
        assert(!is_open_ended(base) ==> flat_tail[0] == '/');
        assert(base.len() == 2 && volumes::volume(base) == Volume::Drive ==> false);
        lemma_names_behind(flat, flat_tail, '/', false);
        if !is_rooted(style, base) {
            assert(inner[0] == base[len]);
            assert(flat[0] != '/');
        }
        assert(lead(style, base) == lead(style, joined));
        lemma_longer_components(lead(style, base), names(style, base), names(style, joined));
    }
}

/// No piece holds the separator, and what a piece holds comes from the text.
proof fn lemma_pieces_are_clean(s: Seq<char>, sep: char)
    ensures
        forall|k: int, i: int|
            0 <= k < text::split_on(s, sep).len() && 0 <= i < text::split_on(s, sep)[k].len() ==> {
                let c = #[trigger] text::split_on(s, sep)[k][i];
                c != sep && s.contains(c)
            },
    decreases s.len(),
{
    text::lemma_split_has_piece(s, sep);
    if s.len() > 0 {
        let shorter = s.drop_last();
        lemma_pieces_are_clean(shorter, sep);
        text::lemma_split_has_piece(shorter, sep);
        let before = text::split_on(shorter, sep);
        let all = text::split_on(s, sep);
        assert forall|k: int, i: int| 0 <= k < all.len() && 0 <= i < all[k].len() implies {
            let c = #[trigger] all[k][i];
            c != sep && s.contains(c)
        } by {
            let c = all[k][i];
            if k < before.len() && i < before[k].len() {
                assert(before[k][i] == c);
                let at = choose|at: int| 0 <= at < shorter.len() && shorter[at] == c;
                assert(s[at] == c);
            } else {
                assert(s[s.len() - 1] == c);
            }
        }
    }
}

/// A list of names that can stand in a verbatim path.
spec fn can_stand(list: Seq<Seq<char>>) -> bool {
    forall|k: int|
        0 <= k < list.len() ==> (#[trigger] list[k]).len() > 0 && !list[k].contains('\\')
}

/// Names are pieces.
proof fn lemma_names_are_pieces(pieces: Seq<Seq<char>>, dots: bool)
    requires
        forall|k: int| 0 <= k < pieces.len() ==> !(#[trigger] pieces[k]).contains('\\'),
    ensures
        can_stand(names_in(pieces, dots)),
    decreases pieces.len(),
{
    if pieces.len() > 0 {
        let shorter = pieces.drop_last();
        assert forall|k: int| 0 <= k < shorter.len() implies !(#[trigger] shorter[k]).contains(
            '\\',
        ) by {
            assert(shorter[k] == pieces[k]);
        }
        lemma_names_are_pieces(shorter, dots);
        assert(!pieces[pieces.len() - 1].contains('\\'));
    }
}

/// The names of a Windows path hold no `\`.
proof fn lemma_windows_names_can_stand(path: Seq<char>)
    ensures
        can_stand(names(PathStyle::Windows, path)),
{
    let style = PathStyle::Windows;
    let flat = volumes::unified_separators(body(path));
    lemma_pieces_are_clean(body(path), '\\');
    lemma_pieces_are_clean(flat, '/');
    let found = pieces(style, path);
    assert forall|k: int| 0 <= k < found.len() implies !(#[trigger] found[k]).contains('\\') by {
        if found[k].contains('\\') {
            let i = choose|i: int| 0 <= i < found[k].len() && found[k][i] == '\\';
            if !is_verbatim(style, path) {
                let c = text::split_on(flat, '/')[k][i];
                let at = choose|at: int| 0 <= at < flat.len() && flat[at] == c;
                assert(flat[at] != '\\');
            } else {
                let c = text::split_on(body(path), '\\')[k][i];
                assert(c != '\\');
            }
        }
    }
    lemma_names_are_pieces(found, is_verbatim(style, path));
}

/// Splitting a text that holds no separator gives that text.
proof fn lemma_split_of_name(name: Seq<char>, sep: char)
    requires
        !name.contains(sep),
    ensures
        text::split_on(name, sep) == seq![name],
    decreases name.len(),
{
    if name.len() > 0 {
        let shorter = name.drop_last();
        assert(!shorter.contains(sep)) by {
            if shorter.contains(sep) {
                let i = choose|i: int| 0 <= i < shorter.len() && shorter[i] == sep;
                assert(name[i] == sep);
            }
        }
        lemma_split_of_name(shorter, sep);
        assert(name[name.len() - 1] != sep);
        assert(shorter.push(name.last()) =~= name);
        assert(text::split_on(name, sep) =~= seq![name]);
    } else {
        assert(name =~= Seq::<char>::empty());
        assert(text::split_on(name, sep) =~= seq![name]);
    }
}

/// Splitting takes names apart that `\` joins.
proof fn lemma_split_of_names(list: Seq<Seq<char>>)
    requires
        list.len() > 0,
        can_stand(list),
    ensures
        text::split_on(text::joined(list, "\\"@), '\\') == list,
        names_in(list, true) == list,
    decreases list.len(),
{
    reveal_strlit("\\");
    assert("\\"@ =~= seq!['\\']);
    let shorter = list.drop_last();
    assert(list[list.len() - 1] == list.last());
    lemma_split_of_name(list.last(), '\\');
    assert(shorter.push(list.last()) =~= list);
    if list.len() == 1 {
        assert(list =~= seq![list.last()]);
        assert(shorter =~= Seq::<Seq<char>>::empty());
        assert(names_in(shorter, true) =~= Seq::<Seq<char>>::empty());
    } else {
        assert(can_stand(shorter)) by {
            assert forall|k: int| 0 <= k < shorter.len() implies (#[trigger] shorter[k]).len() > 0
                && !shorter[k].contains('\\') by {
                assert(shorter[k] == list[k]);
            }
        }
        lemma_split_of_names(shorter);
        lemma_split_of_joined(text::joined(shorter, "\\"@), list.last(), '\\');
        assert(text::split_on(text::joined(list, "\\"@), '\\') =~= list);
    }
    assert(names_in(list, true) =~= list);
}

/// Following names without `..` adds them.
proof fn lemma_followed_adds(from: Seq<Seq<char>>, more: Seq<Seq<char>>)
    requires
        !more.contains(".."@),
    ensures
        followed(from, more) == from + more,
    decreases more.len(),
{
    if more.len() == 0 {
        assert(from + more =~= from);
    } else {
        let shorter = more.drop_last();
        assert(!shorter.contains(".."@)) by {
            if shorter.contains(".."@) {
                let i = choose|i: int| 0 <= i < shorter.len() && shorter[i] == ".."@;
                assert(more[i] == ".."@);
            }
        }
        lemma_followed_adds(from, shorter);
        assert(more[more.len() - 1] != ".."@);
        assert((from + shorter).push(more.last()) =~= from + more);
    }
}

/// A verbatim path without a root is only a volume.
proof fn lemma_bare_verbatim_has_no_names(path: Seq<char>)
    requires
        is_verbatim(PathStyle::Windows, path),
        !is_rooted(PathStyle::Windows, path),
    ensures
        names(PathStyle::Windows, path) == Seq::<Seq<char>>::empty(),
{
    volumes::lemma_volume_bounds(path);
    volumes::lemma_verbatim_volume_ends(path);
    lemma_nothing_has_no_names('\\', true);
    assert(body(path) =~= Seq::<char>::empty());
}

/// Joining on Windows, where `base` is in a verbatim form.
proof fn lemma_verbatim_join(base: Seq<char>, path: Seq<char>)
    requires
        can_lie_within(PathStyle::Windows, base, path),
        is_verbatim(PathStyle::Windows, base),
    ensures
        lies_within(PathStyle::Windows, join(PathStyle::Windows, base, path), base),
        volumes::is_settled(join(PathStyle::Windows, base, path)),
        volumes::volume(join(PathStyle::Windows, base, path)) == volumes::volume(base),
{
    let style = PathStyle::Windows;
    reveal_strlit("\\");
    assert("\\"@ =~= seq!['\\']);
    let own = names(style, base);
    let more = names(style, path);
    lemma_followed_adds(own, more);
    let all = own + more;
    lemma_windows_names_can_stand(base);
    lemma_windows_names_can_stand(path);
    assert(can_stand(all));
    let len = volumes::volume_len(base);
    volumes::lemma_volume_bounds(base);
    let rooted = is_rooted(style, base) || all.len() > 0;
    let tail = if rooted {
        "\\"@ + text::joined(all, "\\"@)
    } else {
        text::joined(all, "\\"@)
    };
    let joined = join(style, base, path);
    assert(joined =~= base.take(len) + tail);
    volumes::lemma_verbatim_volume_kept(base, tail);
    lemma_nothing_has_no_names('\\', true);
    if rooted {
        assert(joined[len] == '\\');
        assert(body(joined) =~= text::joined(all, "\\"@));
        if all.len() > 0 {
            lemma_split_of_names(all);
        } else {
            assert(text::joined(all, "\\"@) =~= Seq::<char>::empty());
        }
        assert(names(style, joined) =~= all);
    } else {
        assert(tail =~= Seq::<char>::empty());
        assert(body(joined) =~= Seq::<char>::empty());
    }
    assert(is_verbatim(style, joined));
    if !is_rooted(style, base) {
        lemma_bare_verbatim_has_no_names(base);
    }
    let short = components(style, base);
    let long = components(style, joined);
    assert(long.subrange(0, short.len() as int) =~= short);
}

/// A path that is seen from another, and does not stand for itself, lies within that other. On
/// Windows it keeps the volume of that other, and can be the base of further paths.
pub proof fn joined_paths_lie_within(style: PathStyle, base: Seq<char>, path: Seq<char>)
    requires
        can_lie_within(style, base, path),
    ensures
        lies_within(style, join(style, base, path), base),
        style == PathStyle::Windows ==> volumes::is_settled(join(style, base, path))
            && volumes::volume(join(style, base, path)) == volumes::volume(base),
{
    match style {
        PathStyle::Posix => lemma_posix_join(base, path),
        PathStyle::Windows => if is_verbatim(style, base) {
            lemma_verbatim_join(base, path);
        } else {
            lemma_windows_join(base, path);
        },
    }
}

/// A name that means the same on every system: it holds no separator and no colon, and is neither
/// empty nor made of one or two dots.
pub open spec fn is_plain_name(name: Seq<char>) -> bool {
    &&& name.len() > 0
    &&& is_ordinary(name)
    &&& forall|i: int| 0 <= i < name.len() ==> !is_special(#[trigger] name[i])
}

/// A separator or a colon.
pub open spec fn is_special(c: char) -> bool {
    c == '/' || c == '\\' || c == ':'
}

/// A plain name can be seen from every path, on Windows from every one that keeps its volume.
pub proof fn plain_names_can_lie_within(style: PathStyle, base: Seq<char>, name: Seq<char>)
    requires
        is_plain_name(name),
        style == PathStyle::Windows ==> volumes::is_settled(base),
    ensures
        can_lie_within(style, base, name),
{
    assert(!is_special(name[0]));
    if name.len() > 1 {
        assert(!is_special(name[1]));
    }
    if style == PathStyle::Windows {
        assert(volumes::volume(name) == Volume::Nothing);
        assert(body(name) =~= name);
        assert(volumes::unified_separators(name) =~= name) by {
            assert forall|i: int| 0 <= i < name.len() implies volumes::unified_separators(name)[i]
                == name[i] by {
                assert(!is_special(name[i]));
            }
        }
        assert(!name.contains('/')) by {
            if name.contains('/') {
                let i = choose|i: int| 0 <= i < name.len() && name[i] == '/';
                assert(!is_special(name[i]));
            }
        }
        lemma_split_of_name(name, '/');
        let found = pieces(style, name);
        assert(found =~= seq![name]);
        assert(found.drop_last() =~= Seq::<Seq<char>>::empty());
        assert(found.last() == name);
        assert(names_in(found.drop_last(), false) =~= Seq::<Seq<char>>::empty());
        assert(names(style, name) =~= seq![name]);
    }
}

/// Lying within is transitive.
pub proof fn lying_within_is_transitive(
    style: PathStyle,
    a: Seq<char>,
    b: Seq<char>,
    c: Seq<char>,
)
    requires
        lies_within(style, a, b),
        lies_within(style, b, c),
    ensures
        lies_within(style, a, c),
{
    let outer = components(style, c);
    let middle = components(style, b);
    let inner = components(style, a);
    assert forall|i: int| 0 <= i < outer.len() implies outer[i] == inner[i] by {
        assert(middle.subrange(0, outer.len() as int)[i] == middle[i]);
        assert(inner.subrange(0, middle.len() as int)[i] == inner[i]);
    }
    assert(outer =~= inner.subrange(0, outer.len() as int));
}

/// Two paths are the same exactly where each lies within the other. Every path is the same as itself.
pub proof fn same_paths_lie_within_each_other(style: PathStyle, a: Seq<char>, b: Seq<char>)
    ensures
        same_path(style, a, b) <==> lies_within(style, a, b) && lies_within(style, b, a),
        same_path(style, a, a),
        same_path(style, a, b) <==> same_path(style, b, a),
        lies_within(style, a, a),
{
    let x = components(style, a);
    let y = components(style, b);
    assert(x.subrange(0, x.len() as int) =~= x);
    assert(y.subrange(0, y.len() as int) =~= y);
    if lies_within(style, a, b) && lies_within(style, b, a) {
        assert(x.len() == y.len());
        assert(x.subrange(0, y.len() as int) == y);
    }
}

/// A path lies within one of several bases exactly where it lies within the last of them or within
/// one of the others.
pub proof fn paths_lie_within_any_base(
    style: PathStyle,
    path: Seq<char>,
    bases: Seq<Seq<char>>,
    base: Seq<char>,
)
    ensures
        !lies_within_any(style, path, Seq::empty()),
        lies_within_any(style, path, bases.push(base)) <==> lies_within_any(style, path, bases)
            || lies_within(style, path, base),
{
    let longer = bases.push(base);
    assert(longer[bases.len() as int] == base);
    if lies_within_any(style, path, bases) {
        let i = choose|i: int|
            0 <= i < bases.len() && lies_within(style, path, #[trigger] bases[i]);
        assert(longer[i] == bases[i]);
    }
    if lies_within_any(style, path, longer) {
        let i = choose|i: int|
            0 <= i < longer.len() && lies_within(style, path, #[trigger] longer[i]);
        if i < bases.len() {
            assert(longer[i] == bases[i]);
        }
    }
}

/// On POSIX systems a slash parts the names before it from those behind it, a single name is itself,
/// and neither nothing nor a dot is a name.
pub proof fn slashes_part_names(a: Seq<char>, b: Seq<char>)
    ensures
        names(PathStyle::Posix, a + seq!['/'] + b) == names(PathStyle::Posix, a) + names(
            PathStyle::Posix,
            b,
        ),
        !a.contains('/') && a.len() > 0 && a != "."@ ==> names(PathStyle::Posix, a) == seq![a],
        names(PathStyle::Posix, "."@).len() == 0,
        names(PathStyle::Posix, Seq::empty()).len() == 0,
{
    lemma_split_of_joined(a, b, '/');
    lemma_names_in_both(text::split_on(a, '/'), text::split_on(b, '/'), false);
    lemma_nothing_has_no_names('/', false);
    let none = Seq::<Seq<char>>::empty();
    if !a.contains('/') && a.len() > 0 && a != "."@ {
        lemma_split_of_name(a, '/');
        assert(seq![a].drop_last() =~= none);
        assert(names_in(none, false) =~= none);
        assert(names_in(seq![a], false) =~= seq![a]);
    }
    reveal_strlit(".");
    lemma_split_of_name("."@, '/');
    assert(seq!["."@].drop_last() =~= none);
    assert(names_in(none, false) =~= none);
}

/// On POSIX systems a path is absolute exactly where it begins with a slash. Seen from anywhere it is
/// then itself; any other path is put behind, with one slash between where there is none.
pub proof fn only_relative_paths_are_put_behind(base: Seq<char>, path: Seq<char>)
    ensures
        is_absolute(PathStyle::Posix, path) <==> path.len() > 0 && path[0] == '/',
        is_absolute(PathStyle::Posix, path) ==> join(PathStyle::Posix, base, path) == path,
        !is_absolute(PathStyle::Posix, path) ==> {
            let whole = join(PathStyle::Posix, base, path);
            &&& base.is_prefix_of(whole)
            &&& path.is_suffix_of(whole)
            &&& whole.len() == base.len() + path.len() + if base.len() == 0 || base.last() == '/' {
                0int
            } else {
                1
            }
            &&& base.len() > 0 && base.last() != '/' ==> whole[base.len() as int] == '/'
        },
{
    reveal_strlit("/");
    let whole = join(PathStyle::Posix, base, path);
    if !is_absolute(PathStyle::Posix, path) {
        assert(whole.subrange(0, base.len() as int) =~= base);
        assert(whole.subrange(whole.len() - path.len(), whole.len() as int) =~= path);
    }
}

/// A plain name that is put behind a path is one more component of it, its last, on every system; on
/// Windows, behind every path that keeps its volume and is not verbatim.
pub proof fn plain_names_are_added(style: PathStyle, base: Seq<char>, name: Seq<char>)
    requires
        is_plain_name(name),
        style == PathStyle::Windows ==> volumes::is_settled(base) && !is_verbatim(style, base)
            && volumes::volume(base) != Volume::Nothing && base.len() > volumes::volume_len(base),
    ensures
        components(style, join(style, base, name)) == components(style, base).push(name),
        file_name(style, join(style, base, name)) == Some(name),
{
    let joined = join(style, base, name);
    plain_names_can_lie_within(style, base, name);
    lemma_plain_names_are_whole(name);
    match style {
        PathStyle::Posix => {
            reveal_strlit("/");
            assert("/"@ =~= seq!['/']);
            if base.len() == 0 {
                assert(base =~= Seq::<char>::empty());
                assert(joined =~= name);
                lemma_nothing_has_no_names('/', false);
                lemma_split_of_name(name, '/');
                assert(!is_special(name[0]));
                assert(lead(style, name) =~= Seq::<Seq<char>>::empty());
                assert(components(style, base) =~= Seq::<Seq<char>>::empty());
                lemma_names_with_one_more(Seq::empty(), name);
            } else {
                lemma_names_with_one_more(base, name);
                assert(joined[0] == base[0]);
                let tail = if base.last() == '/' {
                    name
                } else {
                    "/"@ + name
                };
                assert(joined =~= base + tail);
                lemma_names_behind(base, tail, '/', false);
                assert(lead(style, joined) == lead(style, base));
            }
        },
        PathStyle::Windows => {
            reveal_strlit("\\");
            assert("\\"@ =~= seq!['\\']);
            let tail = if is_open_ended(base) {
                name
            } else {
                "\\"@ + name
            };
            assert(joined =~= base + tail);
            volumes::lemma_volume_kept(base, tail);
            volumes::lemma_volume_bounds(base);
            let len = volumes::volume_len(base);
            assert(joined[len] == base[len]);
            let inner = body(base);
            assert(body(joined) =~= inner + tail);
            lemma_unified_of_both(inner, tail);
            let flat = volumes::unified_separators(inner);
            assert(volumes::unified_separators(tail) =~= if is_open_ended(base) {
                name
            } else {
                seq!['/'] + name
            }) by {
                assert forall|i: int| 0 <= i < name.len() implies name[i] != '\\' by {
                    assert(!is_special(name[i]));
                }
            }
            if inner.len() > 0 {
                assert(inner.last() == base.last());
                assert(volumes::is_slash(base.last()) <==> flat.last() == '/');
            } else {
                assert(base.last() == base[len]);
            }
            lemma_names_with_one_more(flat, name);
            assert(volumes::unified_separators(body(joined)) == if flat.len() == 0 || flat.last()
                == '/' {
                flat + name
            } else {
                flat + seq!['/'] + name
            });
            assert(lead(style, joined) == lead(style, base));
        },
    }
    assert(components(style, joined) =~= components(style, base).push(name));
}

/// A plain name is no dot and holds no slash.
proof fn lemma_plain_names_are_whole(name: Seq<char>)
    requires
        is_plain_name(name),
    ensures
        !name.contains('/'),
        !name.contains('\\'),
        name != "."@,
        name != ".."@,
{
    if name.contains('/') {
        let i = choose|i: int| 0 <= i < name.len() && name[i] == '/';
        assert(!is_special(name[i]));
    }
    if name.contains('\\') {
        let i = choose|i: int| 0 <= i < name.len() && name[i] == '\\';
        assert(!is_special(name[i]));
    }
}

/// A name that is put behind a text, with a slash between, is one more name in it.
proof fn lemma_names_with_one_more(flat: Seq<char>, name: Seq<char>)
    requires
        name.len() > 0,
        !name.contains('/'),
        name != "."@,
    ensures
        names_in(
            text::split_on(
                if flat.len() == 0 || flat.last() == '/' {
                    flat + name
                } else {
                    flat + seq!['/'] + name
                },
                '/',
            ),
            false,
        ) == names_in(text::split_on(flat, '/'), false).push(name),
{
    lemma_nothing_has_no_names('/', false);
    lemma_split_of_name(name, '/');
    let none = Seq::<Seq<char>>::empty();
    let one = seq![name];
    assert(one.drop_last() =~= none);
    assert(names_in(none, false) =~= none);
    assert(names_in(one, false) =~= one);
    let nothing = Seq::<char>::empty();
    if flat.len() == 0 {
        assert(flat =~= nothing);
        assert(flat + name =~= name);
        assert(one =~= none.push(name));
    } else {
        let front = if flat.last() == '/' {
            flat.drop_last()
        } else {
            flat
        };
        lemma_split_of_joined(front, name, '/');
        lemma_names_in_both(text::split_on(front, '/'), one, false);
        if flat.last() == '/' {
            assert(flat =~= front + seq!['/'] + nothing);
            assert(flat + name =~= front + seq!['/'] + name);
            lemma_split_of_joined(front, nothing, '/');
            lemma_names_in_both(
                text::split_on(front, '/'),
                text::split_on(nothing, '/'),
                false,
            );
            assert(names_in(text::split_on(flat, '/'), false) =~= names_in(
                text::split_on(front, '/'),
                false,
            ));
        }
        assert(names_in(text::split_on(front, '/'), false) + one =~= names_in(
            text::split_on(front, '/'),
            false,
        ).push(name));
    }
}

/// The name of a path is its last component, and no dots. The parent of a path begins it, and is
/// what is left of its components without the last.
pub proof fn parents_lack_the_last_name(style: PathStyle, path: Seq<char>)
    ensures
        file_name(style, path) matches Some(name) ==> {
            &&& components(style, path).len() > 0
            &&& components(style, path).last() == name
            &&& name != "."@ && name != ".."@
        },
        names(style, path).len() > 0 && names(style, path).last() != "."@ && names(
            style,
            path,
        ).last() != ".."@ ==> file_name(style, path) is Some,
        parent(style, path) matches Some(above) ==> above.is_prefix_of(path),
        names(style, path).len() > 0 ==> (parent(style, path) matches Some(above) ==> components(
            style,
            above,
        ) == components(style, path).drop_last()),
        components(style, path).len() == 0 ==> parent(style, path) is None,
{
    let all = components(style, path);
    let shown = names(style, path);
    if shown.len() > 0 {
        assert(all.last() == shown.last());
        lemma_beginnings_have_the_parts(style, path, all.drop_last(), lead_len(style, path));
    } else {
        assert(path.subrange(0, 0) =~= Seq::empty());
    }
}

/// What is found at the beginning of a path has the components that were looked for.
proof fn lemma_beginnings_have_the_parts(
    style: PathStyle,
    path: Seq<char>,
    parts: Seq<Seq<char>>,
    from: int,
)
    ensures
        beginning_with(style, path, parts, from) matches Some(found) ==> {
            &&& found.is_prefix_of(path)
            &&& components(style, found) == parts
        },
        beginning_with(style, path, parts, from) is None ==> forall|k: int|
            0 <= from <= k <= path.len() ==> components(style, #[trigger] path.take(k)) != parts,
    decreases path.len() + 1 - from,
{
    if 0 <= from <= path.len() {
        if components(style, path.take(from)) == parts {
            assert(path.take(from) =~= path.subrange(0, from));
        } else {
            lemma_beginnings_have_the_parts(style, path, parts, from + 1);
            if beginning_with(style, path, parts, from + 1) is None {
                assert forall|k: int| 0 <= from <= k <= path.len() implies components(
                    style,
                    #[trigger] path.take(k),
                ) != parts by {
                    if k > from {
                        assert(0 <= from + 1 <= k);
                    }
                }
            }
        }
    }
}

/// On POSIX systems the parent of a path with a plain name put behind is the path.
pub proof fn parents_undo_joining(base: Seq<char>, name: Seq<char>)
    requires
        is_plain_name(name),
    ensures
        parent(PathStyle::Posix, join(PathStyle::Posix, base, name)) matches Some(above)
            && same_path(PathStyle::Posix, above, base),
{
    let style = PathStyle::Posix;
    let joined = join(style, base, name);
    plain_names_are_added(style, base, name);
    only_relative_paths_are_put_behind(base, name);
    assert(!is_special(name[0]));
    let all = components(style, joined);
    assert(all.drop_last() =~= components(style, base));
    assert(joined.take(base.len() as int) =~= base);
    assert(names(style, joined).len() > 0) by {
        if names(style, joined).len() == 0 {
            assert(all == lead(style, joined));
            assert(file_name(style, joined) is None);
        }
    }
    lemma_beginnings_have_the_parts(style, joined, all.drop_last(), lead_len(style, joined));
    if base.len() == 0 {
        assert(joined =~= name);
    } else {
        assert(joined[0] == base[0]);
    }
    assert(lead_len(style, joined) <= base.len());
    assert(components(style, joined.take(base.len() as int)) == all.drop_last());
}

/// On Windows neither the case of a drive letter nor the kind of its slashes tells paths apart.
pub proof fn drives_and_slashes_have_two_forms(letter: char, rest: Seq<char>)
    requires
        'a' <= letter && letter <= 'z',
    ensures
        same_path(
            PathStyle::Windows,
            seq![letter, ':'] + rest,
            seq![volumes::upper_letter(letter), ':'] + volumes::unified_separators(rest),
        ),
{
    let style = PathStyle::Windows;
    let flat = volumes::unified_separators(rest);
    let a = seq![letter, ':'] + rest;
    let b = seq![volumes::upper_letter(letter), ':'] + flat;
    assert(a[0] == letter && a[1] == ':' && b[1] == ':');
    assert(volumes::upper_letter(letter) as u8 == letter as u8 - 32);
    assert(volumes::volume(a) == Volume::Drive && volumes::volume(b) == Volume::Drive);
    if rest.len() > 0 {
        assert(a[2] == rest[0] && b[2] == flat[0]);
    }
    assert(is_rooted(style, a) == is_rooted(style, b));
    assert(volumes::unified_separators(body(a)) =~= volumes::unified_separators(body(b)));
    assert(volumes::volume_mark(a) =~= volumes::volume_mark(b));
    assert(lead(style, a) =~= lead(style, b));
    assert(components(style, a) =~= components(style, b));
}

/// Steps up a path take away the name before them, and nothing where there is none.
pub proof fn steps_up_take_names_away(from: Seq<Seq<char>>, more: Seq<Seq<char>>, name: Seq<char>)
    ensures
        followed(from, Seq::empty()) == from,
        name != ".."@ ==> followed(from, more.push(name)) == followed(from, more).push(name),
        name != ".."@ && name != "."@ ==> followed(from, more.push(name).push(".."@)) == followed(
            from,
            more,
        ),
        followed(Seq::empty(), seq![".."@]).len() == 0,
{
    assert(more.push(name).drop_last() =~= more);
    assert(more.push(name).push(".."@).drop_last() =~= more.push(name));
    let none = Seq::<Seq<char>>::empty();
    assert(seq![".."@].drop_last() =~= none);
    assert(followed(none, none) =~= none);
    if name != ".."@ && name != "."@ {
        assert(followed(from, more.push(name)).drop_last() =~= followed(from, more));
    }
}

} // verus!
