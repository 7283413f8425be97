//! What a Windows path begins with: a drive, a share, a device, or one of their verbatim forms,
//! which start with `\\?\`.

use vstd::prelude::*;

use crate::text::string_between;

verus! {

/// What a Windows path begins with.
#[derive(Clone, Copy, Debug, PartialEq, Eq, Structural)]
pub enum Volume {
    /// Nothing of the kind.
    Nothing,
    /// A drive: `C:`.
    Drive,
    /// A share of a server: `\\server\share`.
    Share,
    /// A device: `\\.\COM1`.
    Device,
    /// A drive in the verbatim form: `\\?\C:`.
    VerbatimDrive,
    /// A share in the verbatim form: `\\?\UNC\server\share`.
    VerbatimShare,
    /// Anything else in the verbatim form: `\\?\name`.
    Verbatim,
}

/// A separator of a Windows path.
pub open spec fn is_slash(c: char) -> bool {
    c == '/' || c == '\\'
}

/// A letter that can name a drive.
pub open spec fn is_drive_letter(c: char) -> bool {
    ('a' <= c && c <= 'z') || ('A' <= c && c <= 'Z')
}

/// A separator stands at the given place.
pub open spec fn slash_at(path: Seq<char>, at: int) -> bool {
    0 <= at < path.len() && is_slash(path[at])
}

/// A path with both kinds of separators written as `/`.
pub open spec fn unified_separators(path: Seq<char>) -> Seq<char> {
    path.map_values(|c: char| if c == '\\' { '/' } else { c })
}

/// A character that ends a piece of a path. In the verbatim forms only `\` does.
pub open spec fn separates(c: char, verbatim: bool) -> bool {
    c == '\\' || (c == '/' && !verbatim)
}

/// The end of the piece of a path that starts at the given place: the next separator, or the end
/// of the path.
pub open spec fn piece_end(path: Seq<char>, from: int, verbatim: bool) -> int
    decreases path.len() - from,
{
    if from < 0 || from >= path.len() {
        path.len() as int
    } else if separates(path[from], verbatim) {
        from
    } else {
        piece_end(path, from + 1, verbatim)
    }
}

/// A path in a verbatim form.
pub open spec fn begins_verbatim(path: Seq<char>) -> bool {
    path.len() >= 4 && path[0] == '\\' && path[1] == '\\' && path[2] == '?' && path[3] == '\\'
}

/// A verbatim path that goes on with `UNC` and a separator.
pub open spec fn names_unc(path: Seq<char>) -> bool {
    path.len() >= 8 && path[4] == 'U' && path[5] == 'N' && path[6] == 'C' && is_slash(path[7])
}

/// A verbatim path that goes on with a drive and nothing else in that piece.
pub open spec fn names_drive(path: Seq<char>) -> bool {
    path.len() >= 6 && is_drive_letter(path[4]) && path[5] == ':' && (path.len() == 6 || is_slash(
        path[6],
    ))
}

/// A path that goes on, behind two separators, with the names of a server and a share.
pub open spec fn names_share(path: Seq<char>) -> bool {
    let server = piece_end(path, 2, false);
    2 < server && server + 1 < piece_end(path, server + 1, false)
}

/// What a Windows path begins with.
pub open spec fn volume(path: Seq<char>) -> Volume {
    if slash_at(path, 0) && slash_at(path, 1) {
        if begins_verbatim(path) {
            if names_unc(path) {
                Volume::VerbatimShare
            } else if names_drive(path) {
                Volume::VerbatimDrive
            } else {
                Volume::Verbatim
            }
        } else if path.len() >= 4 && path[2] == '.' && is_slash(path[3]) {
            Volume::Device
        } else if names_share(path) {
            Volume::Share
        } else {
            Volume::Nothing
        }
    } else if path.len() >= 2 && is_drive_letter(path[0]) && path[1] == ':' {
        Volume::Drive
    } else {
        Volume::Nothing
    }
}

/// The verbatim forms.
pub open spec fn is_verbatim(volume: Volume) -> bool {
    volume == Volume::VerbatimDrive || volume == Volume::VerbatimShare || volume
        == Volume::Verbatim
}

/// The end of the share in a verbatim path that names a server. The share may be missing.
pub open spec fn verbatim_share_end(path: Seq<char>) -> int {
    let server = piece_end(path, 8, true);
    if server + 1 < piece_end(path, server + 1, true) {
        piece_end(path, server + 1, true)
    } else {
        server
    }
}

/// How many characters of a path name its volume.
pub open spec fn volume_len(path: Seq<char>) -> int {
    match volume(path) {
        Volume::Nothing => 0,
        Volume::Drive => 2,
        Volume::Share => piece_end(path, piece_end(path, 2, false) + 1, false),
        Volume::Device => piece_end(path, 4, false),
        Volume::VerbatimDrive => 6,
        Volume::VerbatimShare => verbatim_share_end(path),
        Volume::Verbatim => piece_end(path, 4, true),
    }
}

/// A letter in upper case.
pub open spec fn upper_letter(c: char) -> char {
    if 'a' <= c && c <= 'z' {
        ((c as u8) - 32) as u8 as char
    } else {
        c
    }
}

/// The volume of a path as one text: two paths begin with the same volume when these are the same.
/// The letter of a drive counts in either case, and a separator as written either way.
pub open spec fn volume_mark(path: Seq<char>) -> Seq<char> {
    match volume(path) {
        Volume::Nothing => Seq::empty(),
        Volume::Drive => seq![upper_letter(path[0]), ':'],
        Volume::Share => unified_separators(path.take(volume_len(path))),
        Volume::Device => "\\\\.\\"@ + path.subrange(4, volume_len(path)),
        Volume::VerbatimDrive => "\\\\?\\"@ + seq![upper_letter(path[4]), ':'],
        Volume::VerbatimShare => "\\\\?\\UNC\\"@ + path.subrange(8, volume_len(path)),
        Volume::Verbatim => path.take(volume_len(path)),
    }
}

/// The end of a piece lies between its start and the end of the path.
pub proof fn lemma_piece_end_bounds(path: Seq<char>, from: int, verbatim: bool)
    requires
        0 <= from,
    ensures
        piece_end(path, from, verbatim) <= path.len(),
        from <= path.len() ==> from <= piece_end(path, from, verbatim),
        piece_end(path, from, verbatim) < path.len() ==> separates(
            path[piece_end(path, from, verbatim)],
            verbatim,
        ),
        forall|i: int|
            from <= i < piece_end(path, from, verbatim) && i < path.len() ==> !separates(
                #[trigger] path[i],
                verbatim,
            ),
    decreases path.len() - from,
{
    if from < path.len() && !separates(path[from], verbatim) {
        lemma_piece_end_bounds(path, from + 1, verbatim);
    }
}

/// A volume lies within its path.
pub proof fn lemma_volume_bounds(path: Seq<char>)
    ensures
        0 <= volume_len(path) <= path.len(),
        volume(path) == Volume::Device ==> volume_len(path) >= 4,
        volume(path) == Volume::VerbatimShare ==> volume_len(path) >= 8,
        volume(path) == Volume::Share ==> volume_len(path) >= 5,
        volume(path) == Volume::Verbatim ==> volume_len(path) >= 4,
{
    lemma_piece_end_bounds(path, 2, false);
    lemma_piece_end_bounds(path, piece_end(path, 2, false) + 1, false);
    lemma_piece_end_bounds(path, 4, false);
    lemma_piece_end_bounds(path, 4, true);
    lemma_piece_end_bounds(path, 8, true);
    lemma_piece_end_bounds(path, piece_end(path, 8, true) + 1, true);
}

/// A piece ends where the first separator stands.
proof fn lemma_piece_end_is(path: Seq<char>, from: int, end: int, verbatim: bool)
    requires
        0 <= from <= end <= path.len(),
        forall|i: int| from <= i < end ==> !separates(#[trigger] path[i], verbatim),
        end < path.len() ==> separates(path[end], verbatim),
    ensures
        piece_end(path, from, verbatim) == end,
    decreases end - from,
{
    if from < end {
        lemma_piece_end_is(path, from + 1, end, verbatim);
    }
}

/// A path that keeps its volume whatever is put behind it with a separator between: its volume is
/// complete, and where it names none it does not begin as if it did.
pub open spec fn is_settled(path: Seq<char>) -> bool {
    match volume(path) {
        Volume::Nothing => !(slash_at(path, 0) && slash_at(path, 1)),
        Volume::Drive => true,
        Volume::Share => true,
        Volume::Device => volume_len(path) > 4,
        Volume::VerbatimDrive => true,
        Volume::VerbatimShare => volume_len(path) > piece_end(path, 8, true),
        Volume::Verbatim => path.take(volume_len(path)) != "\\\\?\\UNC"@,
    }
}

/// A settled path keeps its volume when more is put behind it.
pub proof fn lemma_volume_kept(path: Seq<char>, more: Seq<char>)
    requires
        is_settled(path),
        !is_verbatim(volume(path)),
        path.len() == 0 ==> volume(more) == Volume::Nothing && !slash_at(more, 0),
        path.len() > 0 && is_slash(path.last()) ==> !slash_at(more, 0),
        path.len() > 0 && !is_slash(path.last()) && !(volume(path) == Volume::Drive && path.len()
            == 2) ==> slash_at(more, 0),
    ensures
        is_settled(path + more),
        volume(path + more) == volume(path),
        volume_len(path + more) == volume_len(path),
        volume_mark(path + more) == volume_mark(path),
{
    let whole = path + more;
    lemma_volume_bounds(path);
    let len = volume_len(path);
    match volume(path) {
        Volume::Share => {
            let server = piece_end(path, 2, false);
            lemma_piece_end_bounds(path, 2, false);
            lemma_piece_end_bounds(path, server + 1, false);
            lemma_piece_end_is(whole, 2, server, false);
            if len == path.len() {
                assert(path.last() == path[len - 1]);
                assert(whole[len] == more[0]);
            }
            lemma_piece_end_is(whole, server + 1, len, false);
            assert(whole.take(len) =~= path.take(len));
        },
        Volume::Device => {
            lemma_piece_end_bounds(path, 4, false);
            if len == path.len() {
                assert(path.last() == path[len - 1]);
                assert(whole[len] == more[0]);
            }
            lemma_piece_end_is(whole, 4, len, false);
            assert(whole.subrange(4, len) =~= path.subrange(4, len));
        },
        _ => {
            if path.len() == 0 {
                assert(whole =~= more);
            } else if path.len() == 1 {
                assert(more.len() > 0 ==> whole[1] == more[0]);
            }
        },
    }
}

/// The volume of a settled verbatim path stays one when more is put behind it.
pub proof fn lemma_verbatim_volume_kept(path: Seq<char>, more: Seq<char>)
    requires
        is_settled(path),
        is_verbatim(volume(path)),
        more.len() > 0 ==> more[0] == '\\',
    ensures
        is_settled(path.take(volume_len(path)) + more),
        volume(path.take(volume_len(path)) + more) == volume(path),
        volume_len(path.take(volume_len(path)) + more) == volume_len(path),
        volume_mark(path.take(volume_len(path)) + more) == volume_mark(path),
{
    lemma_volume_bounds(path);
    let len = volume_len(path);
    let whole = path.take(len) + more;
    assert(more.len() > 0 ==> whole[len] == more[0]);
    match volume(path) {
        Volume::VerbatimShare => {
            let server = piece_end(path, 8, true);
            lemma_piece_end_bounds(path, 8, true);
            lemma_piece_end_bounds(path, server + 1, true);
            lemma_piece_end_is(whole, 8, server, true);
            lemma_piece_end_is(whole, server + 1, len, true);
            assert(whole.subrange(8, len) =~= path.subrange(8, len));
        },
        Volume::Verbatim => {
            lemma_piece_end_bounds(path, 4, true);
            lemma_piece_end_is(whole, 4, len, true);
            assert(whole.take(len) =~= path.take(len));
            if names_unc(whole) {
                reveal_strlit("\\\\?\\UNC");
                assert(len >= 7);
                if len == 7 {
                    assert(path.take(len) =~= "\\\\?\\UNC"@);
                }
                assert(false);
            }
            assert(!names_drive(whole));
        },
        _ => {},
    }
}

/// A path that begins with the volume of another names a volume too, and a drive exactly where the
/// other does.
pub proof fn lemma_volume_stays_named(path: Seq<char>, other: Seq<char>)
    requires
        volume(path) != Volume::Nothing,
        volume_len(path) <= other.len(),
        other.take(volume_len(path)) == path.take(volume_len(path)),
    ensures
        volume(other) != Volume::Nothing,
        volume(other) == Volume::Drive <==> volume(path) == Volume::Drive,
{
    lemma_volume_bounds(path);
    let len = volume_len(path);
    assert forall|i: int| 0 <= i < len implies other[i] == path[i] by {
        assert(other.take(len)[i] == path.take(len)[i]);
    }
    if volume(path) == Volume::Share {
        let server = piece_end(path, 2, false);
        lemma_piece_end_bounds(path, 2, false);
        lemma_piece_end_bounds(path, server + 1, false);
        lemma_piece_end_is(other, 2, server, false);
        assert(!separates(path[server + 1], false));
        lemma_piece_end_bounds(other, server + 2, false);
        assert(names_share(other));
    }
}

/// Behind the volume of a verbatim path stands a separator, or nothing.
pub proof fn lemma_verbatim_volume_ends(path: Seq<char>)
    requires
        is_verbatim(volume(path)),
    ensures
        volume_len(path) == path.len() || slash_at(path, volume_len(path)),
{
    lemma_piece_end_bounds(path, 4, true);
    lemma_piece_end_bounds(path, 8, true);
    lemma_piece_end_bounds(path, piece_end(path, 8, true) + 1, true);
}

/// The end of the piece of a path that starts at the given place.
fn find_piece_end(path: &Vec<char>, from: usize, verbatim: bool) -> (end: usize)
    ensures
        end == piece_end(path@, from as int, verbatim),
{
    let mut i: usize = from;
    while i < path.len()
        invariant
            piece_end(path@, from as int, verbatim) == piece_end(path@, i as int, verbatim),
        decreases path.len() - i,
    {
        if path[i] == '\\' || (path[i] == '/' && !verbatim) {
            return i;
        }
        i = i + 1;
    }
    path.len()
}

/// Whether a character separates the parts of a Windows path.
pub fn char_is_slash(c: char) -> (yes: bool)
    ensures
        yes == is_slash(c),
{
    c == '/' || c == '\\'
}

/// Whether a letter can name a drive.
fn char_is_drive_letter(c: char) -> (yes: bool)
    ensures
        yes == is_drive_letter(c),
{
    ('a' <= c && c <= 'z') || ('A' <= c && c <= 'Z')
}

/// What a verbatim path begins with, and how many characters of it name that.
fn verbatim_volume_of(path: &Vec<char>) -> (found: (Volume, usize))
    requires
        begins_verbatim(path@),
    ensures
        found.0 == volume(path@),
        found.1 == volume_len(path@),
{
    if path.len() >= 8 && path[4] == 'U' && path[5] == 'N' && path[6] == 'C' && char_is_slash(
        path[7],
    ) {
        let server = find_piece_end(path, 8, true);
        proof {
            lemma_piece_end_bounds(path@, 8, true);
        }
        if server == path.len() {
            return (Volume::VerbatimShare, server);
        }
        let share = find_piece_end(path, server + 1, true);
        if server + 1 < share {
            (Volume::VerbatimShare, share)
        } else {
            (Volume::VerbatimShare, server)
        }
    } else if path.len() >= 6 && char_is_drive_letter(path[4]) && path[5] == ':' && (path.len() == 6
        || char_is_slash(path[6])) {
        (Volume::VerbatimDrive, 6)
    } else {
        (Volume::Verbatim, find_piece_end(path, 4, true))
    }
}

/// What a Windows path begins with, and how many characters of it name that.
pub fn volume_of(path: &Vec<char>) -> (found: (Volume, usize))
    ensures
        found.0 == volume(path@),
        found.1 == volume_len(path@),
{
    if path.len() < 2 {
        return (Volume::Nothing, 0);
    }
    if char_is_slash(path[0]) && char_is_slash(path[1]) {
        if path.len() >= 4 && path[0] == '\\' && path[1] == '\\' && path[2] == '?' && path[3]
            == '\\' {
            return verbatim_volume_of(path);
        }
        if path.len() >= 4 && path[2] == '.' && char_is_slash(path[3]) {
            return (Volume::Device, find_piece_end(path, 4, false));
        }
        let server = find_piece_end(path, 2, false);
        proof {
            lemma_piece_end_bounds(path@, 2, false);
            lemma_piece_end_bounds(path@, server + 1, false);
        }
        if server == path.len() {
            return (Volume::Nothing, 0);
        }
        let share = find_piece_end(path, server + 1, false);
        if 2 < server && server + 1 < share {
            (Volume::Share, share)
        } else {
            (Volume::Nothing, 0)
        }
    } else if char_is_drive_letter(path[0]) && path[1] == ':' {
        (Volume::Drive, 2)
    } else {
        (Volume::Nothing, 0)
    }
}

/// Whether a volume is in a verbatim form.
pub fn volume_is_verbatim(volume: Volume) -> (yes: bool)
    ensures
        yes == is_verbatim(volume),
{
    match volume {
        Volume::VerbatimDrive => true,
        Volume::VerbatimShare => true,
        Volume::Verbatim => true,
        _ => false,
    }
}

/// A path with both kinds of separators written as `/`.
pub fn unify_separators(path: &str) -> (out: String)
    ensures
        out@ == unified_separators(path@),
{
    let mut out = String::new();
    for c in it: path.chars()
        invariant
            it.seq() == path@,
            out@ == unified_separators(path@.take(it.index() as int)),
    {
        let unified = if c == '\\' {
            '/'
        } else {
            c
        };
        out.push(unified);
        assert(unified_separators(path@.take(it.index() + 1)) == unified_separators(
            path@.take(it.index() as int),
        ).push(unified));
    }
    assert(path@.take(path@.len() as int) == path@);
    out
}

/// A drive with its letter in upper case.
fn drive_text(letter: char) -> (out: String)
    ensures
        out@ == seq![upper_letter(letter), ':'],
{
    let upper = if 'a' <= letter && letter <= 'z' {
        ((letter as u8) - 32) as char
    } else {
        letter
    };
    let mut out = String::new();
    out.push(upper);
    out.push(':');
    assert(out@ == seq![upper_letter(letter), ':']);
    out
}

/// The volume of a path as one text.
pub fn mark_volume(path: &Vec<char>) -> (out: String)
    ensures
        out@ == volume_mark(path@),
{
    let found = volume_of(path);
    let len = found.1;
    proof {
        lemma_volume_bounds(path@);
    }
    assert(path@.take(len as int) == path@.subrange(0, len as int));
    match found.0 {
        Volume::Nothing => String::new(),
        Volume::Drive => drive_text(path[0]),
        Volume::Share => unify_separators(&string_between(path, 0, len)),
        Volume::Device => {
            let mut out = "\\\\.\\".to_owned();
            out.append(&string_between(path, 4, len));
            out
        },
        Volume::VerbatimDrive => {
            let mut out = "\\\\?\\".to_owned();
            out.append(&drive_text(path[4]));
            out
        },
        Volume::VerbatimShare => {
            let mut out = "\\\\?\\UNC\\".to_owned();
            out.append(&string_between(path, 8, len));
            out
        },
        Volume::Verbatim => string_between(path, 0, len),
    }
}

/// A letter and a colon name a drive, whatever follows.
pub proof fn letters_name_drives(letter: char, rest: Seq<char>)
    requires
        is_drive_letter(letter),
    ensures
        volume(seq![letter, ':'] + rest) == Volume::Drive,
        volume_len(seq![letter, ':'] + rest) == 2,
        volume_mark(seq![letter, ':'] + rest) == seq![upper_letter(letter), ':'],
{
    let path = seq![letter, ':'] + rest;
    assert(path[0] == letter && path[1] == ':');
}

/// Two slashes, a server and a share name a share; it ends with the share.
pub proof fn servers_name_shares(server: Seq<char>, share: Seq<char>, rest: Seq<char>)
    requires
        server.len() > 0,
        share.len() > 0,
        server[0] != '.' && server[0] != '?',
        forall|i: int| 0 <= i < server.len() ==> !is_slash(#[trigger] server[i]),
        forall|i: int| 0 <= i < share.len() ==> !is_slash(#[trigger] share[i]),
        rest.len() > 0 ==> is_slash(rest[0]),
    ensures
        ({
            let path = seq!['\\', '\\'] + server + seq!['\\'] + share + rest;
            &&& volume(path) == Volume::Share
            &&& volume_len(path) == 3 + server.len() + share.len()
            &&& volume_mark(path) == seq!['/', '/'] + server + seq!['/'] + share
        }),
{
    let path = seq!['\\', '\\'] + server + seq!['\\'] + share + rest;
    let middle = 2 + server.len() as int;
    let end = middle + 1 + share.len();
    assert(path[0] == '\\' && path[1] == '\\' && path[2] == server[0]);
    assert forall|i: int| 2 <= i < middle implies !separates(#[trigger] path[i], false) by {
        assert(path[i] == server[i - 2]);
    }
    assert(path[middle] == '\\');
    lemma_piece_end_is(path, 2, middle, false);
    assert forall|i: int| middle + 1 <= i < end implies !separates(#[trigger] path[i], false) by {
        assert(path[i] == share[i - middle - 1]);
    }
    assert(end < path.len() ==> path[end] == rest[0]);
    lemma_piece_end_is(path, middle + 1, end, false);
    assert(volume_mark(path) =~= seq!['/', '/'] + server + seq!['/'] + share) by {
        let taken = path.take(end);
        let mark = seq!['/', '/'] + server + seq!['/'] + share;
        assert forall|i: int| 0 <= i < end implies unified_separators(taken)[i] == mark[i] by {
            if 2 <= i < middle {
                assert(path[i] == server[i - 2]);
                assert(!is_slash(server[i - 2]));
            } else if middle < i {
                assert(path[i] == share[i - middle - 1]);
                assert(!is_slash(share[i - middle - 1]));
            }
        }
    }
}

/// A path that neither begins with two slashes nor names a drive names no volume.
pub proof fn other_paths_name_no_volume(path: Seq<char>)
    requires
        !(slash_at(path, 0) && slash_at(path, 1)),
        path.len() < 2 || path[1] != ':' || !is_drive_letter(path[0]),
    ensures
        volume(path) == Volume::Nothing,
        volume_len(path) == 0,
        volume_mark(path).len() == 0,
        is_settled(path),
{
}

/// What begins verbatim is read as it stands, and devices have a beginning of their own.
pub proof fn special_beginnings_are_known(path: Seq<char>)
    ensures
        begins_verbatim(path) ==> is_verbatim(volume(path)),
        is_verbatim(volume(path)) ==> begins_verbatim(path),
        begins_verbatim(path) && names_unc(path) <==> volume(path) == Volume::VerbatimShare,
        volume(path) == Volume::VerbatimDrive ==> volume_len(path) == 6 && path[5] == ':'
            && is_drive_letter(path[4]),
        slash_at(path, 0) && slash_at(path, 1) && path.len() >= 4 && path[2] == '.' && is_slash(
            path[3],
        ) ==> volume(path) == Volume::Device,
{
}

/// Both slashes become one kind, and nothing else is touched.
pub proof fn slashes_become_one_kind(path: Seq<char>)
    ensures
        unified_separators(path).len() == path.len(),
        forall|i: int|
            0 <= i < path.len() ==> {
                &&& is_slash(#[trigger] path[i]) ==> unified_separators(path)[i] == '/'
                &&& !is_slash(path[i]) ==> unified_separators(path)[i] == path[i]
            },
{
}

} // verus!
