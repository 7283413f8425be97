//! Finding repositories on disk, and naming the device after its host.

use vstd::prelude::*;

use crate::config;
use crate::contracts::{DeviceRepository, DeviceRepositoryView};
use crate::encoding;
use crate::error;
use crate::error::EdgeError;
use crate::execution::ProcessRun;
use crate::paths;
use crate::paths::PathStyle;
use crate::text;
use crate::text::push_text;

verus! {

/// The name that a host gives itself: that of Windows, else that of other systems.
pub open spec fn own_name(computer_name: Option<Seq<char>>, host_name: Option<Seq<char>>) -> Option<
    Seq<char>,
> {
    match computer_name {
        Some(name) => Some(name),
        None => host_name,
    }
}

/// A text with hyphens in place of spaces.
pub open spec fn hyphenated(s: Seq<char>) -> Seq<char> {
    s.map_values(|c: char| if c == ' ' { '-' } else { c })
}

/// The identity of a device that has none configured.
pub open spec fn detected_id(
    computer_name: Option<Seq<char>>,
    host_name: Option<Seq<char>>,
) -> Seq<char> {
    match own_name(computer_name, host_name) {
        Some(name) => if text::trim(name).len() == 0 {
            "elowen-edge"@
        } else {
            hyphenated(text::lower(text::trim(name)))
        },
        None => "elowen-edge"@,
    }
}

/// The name of a device that has none configured.
pub open spec fn detected_name(
    computer_name: Option<Seq<char>>,
    host_name: Option<Seq<char>>,
    device_id: Seq<char>,
) -> Seq<char> {
    match own_name(computer_name, host_name) {
        Some(name) => name,
        None => device_id,
    }
}

/// A text with hyphens in place of spaces.
fn hyphenate(s: &str) -> (out: String)
    ensures
        out@ == hyphenated(s@),
{
    let mut out = String::new();
    for c in it: s.chars()
        invariant
            it.seq() == s@,
            out@ == hyphenated(s@.take(it.index() as int)),
    {
        let mark = if c == ' ' {
            '-'
        } else {
            c
        };
        out.push(mark);
        assert(hyphenated(s@.take(it.index() + 1)) == hyphenated(
            s@.take(it.index() as int),
        ).push(mark));
    }
    assert(s@.take(s@.len() as int) == s@);
    out
}

/// The identity of a device that has none configured.
pub fn detect_device_id(computer_name: &Option<String>, host_name: &Option<String>) -> (out: String)
    ensures
        out@ == detected_id(text::opt_text(*computer_name), text::opt_text(*host_name)),
{
    let name = match (computer_name, host_name) {
        (Some(name), _) => name,
        (None, Some(name)) => name,
        (None, None) => return "elowen-edge".to_owned(),
    };
    let body = text::trimmed_text(name);
    if body.as_str().is_empty() {
        "elowen-edge".to_owned()
    } else {
        hyphenate(&text::lowered(&body))
    }
}

/// The name of a device that has none configured.
pub fn detect_device_name(
    computer_name: &Option<String>,
    host_name: &Option<String>,
    device_id: &str,
) -> (out: String)
    ensures
        out@ == detected_name(
            text::opt_text(*computer_name),
            text::opt_text(*host_name),
            device_id@,
        ),
{
    match (computer_name, host_name) {
        (Some(name), _) => name.clone(),
        (None, Some(name)) => name.clone(),
        (None, None) => device_id.to_owned(),
    }
}

/// A directory that is never scanned for repositories.
pub open spec fn is_skipped(name: Seq<char>) -> bool {
    ||| name == ".git"@
    ||| name == ".elowen"@
    ||| name == "node_modules"@
    ||| name == "target"@
    ||| name == "dist"@
    ||| name == "build"@
    ||| name == ".next"@
}

/// Whether a directory is never scanned for repositories.
pub fn should_skip_repo_scan_directory(name: &str) -> (skip: bool)
    ensures
        skip == is_skipped(name@),
{
    text::text_eq(name, ".git") || text::text_eq(name, ".elowen") || text::text_eq(
        name,
        "node_modules",
    ) || text::text_eq(name, "target") || text::text_eq(name, "dist") || text::text_eq(
        name,
        "build",
    ) || text::text_eq(name, ".next")
}

/// The rank of a branch: the main ones come first.
pub open spec fn branch_rank(branch: Seq<char>) -> u8 {
    if branch == "main"@ {
        0
    } else if branch == "master"@ {
        1
    } else {
        2
    }
}

/// The rank of a branch, and its name.
pub fn branch_priority(branch: &str) -> (out: (u8, String))
    ensures
        out.0 == branch_rank(branch@),
        out.1@ == branch@,
{
    if text::text_eq(branch, "main") {
        (0, branch.to_owned())
    } else if text::text_eq(branch, "master") {
        (1, branch.to_owned())
    } else {
        (2, branch.to_owned())
    }
}

/// One branch is listed before another: by rank, and by name within a rank.
pub open spec fn branch_before(a: Seq<char>, b: Seq<char>) -> bool {
    branch_rank(a) < branch_rank(b) || (branch_rank(a) == branch_rank(b) && text::precedes(a, b))
}

/// Whether one branch is listed before another.
fn lists_before(a: &str, b: &str) -> (before: bool)
    ensures
        before == branch_before(a@, b@),
{
    let (rank_a, name_a) = branch_priority(a);
    let (rank_b, name_b) = branch_priority(b);
    rank_a < rank_b || (rank_a == rank_b && text::text_before(&name_a, &name_b))
}

/// A branch put into an ordered list at its place.
pub open spec fn with_branch(ordered: Seq<Seq<char>>, branch: Seq<char>) -> Seq<Seq<char>>
    decreases ordered.len(),
{
    if ordered.len() > 0 && branch_before(branch, ordered.last()) {
        with_branch(ordered.drop_last(), branch).push(ordered.last())
    } else {
        ordered.push(branch)
    }
}

/// Branches in the order in which they are listed.
pub open spec fn ordered_branches(branches: Seq<Seq<char>>) -> Seq<Seq<char>>
    decreases branches.len(),
{
    if branches.len() == 0 {
        Seq::empty()
    } else {
        with_branch(ordered_branches(branches.drop_last()), branches.last())
    }
}

/// Puts a branch into an ordered list at its place.
fn insert_branch(ordered: &mut Vec<String>, branch: String)
    ensures
        text::texts(final(ordered)@) == with_branch(text::texts(old(ordered)@), branch@),
{
    let ghost before = text::texts(ordered@);
    let mut at: usize = ordered.len();
    assert(before.take(at as int) == before);
    assert(before.skip(at as int) == Seq::<Seq<char>>::empty());
    assert(with_branch(before, branch@) =~= with_branch(before.take(at as int), branch@)
        + before.skip(at as int));
    while at > 0 && lists_before(&branch, &ordered[at - 1])
        invariant
            at <= ordered.len(),
            before == text::texts(ordered@),
            with_branch(before, branch@) == with_branch(before.take(at as int), branch@)
                + before.skip(at as int),
        decreases at,
    {
        let ghost here = before.take(at as int);
        assert(here.drop_last() == before.take(at - 1));
        assert(here.last() == ordered@[at - 1]@);
        assert(seq![here.last()] + before.skip(at as int) == before.skip(at - 1));
        assert(with_branch(here, branch@) + before.skip(at as int) == with_branch(
            before.take(at - 1),
            branch@,
        ) + before.skip(at - 1));
        at = at - 1;
    }
    assert(at > 0 ==> before.take(at as int).last() == ordered@[at - 1]@);
    assert(with_branch(before.take(at as int), branch@) == before.take(at as int).push(branch@));
    ordered.insert(at, branch);
    assert(text::texts(ordered@) == before.take(at as int).push(branch@) + before.skip(at as int));
}

/// The branches of a list in order: no branch is listed before one that stands earlier, and the
/// branches are the same as before.
pub proof fn branches_are_listed_in_order(branches: Seq<Seq<char>>)
    ensures
        forall|i: int, j: int|
            0 <= i < j < ordered_branches(branches).len() ==> !branch_before(
                #[trigger] ordered_branches(branches)[j],
                #[trigger] ordered_branches(branches)[i],
            ),
        ordered_branches(branches).to_multiset() == branches.to_multiset(),
    decreases branches.len(),
{
    broadcast use vstd::seq_lib::group_to_multiset_ensures;

    if branches.len() > 0 {
        branches_are_listed_in_order(branches.drop_last());
        lemma_place_is_in_order(ordered_branches(branches.drop_last()), branches.last());
        assert(branches.drop_last().push(branches.last()) == branches);
    } else {
        assert(ordered_branches(branches) == branches);
    }
}

/// A list in which no branch stands behind one that it is listed before.
spec fn in_order(list: Seq<Seq<char>>) -> bool {
    forall|i: int, j: int| 0 <= i < j < list.len() ==> !branch_before(#[trigger] list[j], #[trigger] list[i])
}

/// A branch that is put at its place keeps a list in order.
proof fn lemma_place_is_in_order(ordered: Seq<Seq<char>>, branch: Seq<char>)
    requires
        in_order(ordered),
    ensures
        in_order(with_branch(ordered, branch)),
        with_branch(ordered, branch).to_multiset() == ordered.to_multiset().insert(branch),
        forall|i: int|
            0 <= i < with_branch(ordered, branch).len() ==> (#[trigger] with_branch(ordered, branch)[i]
                == branch || ordered.contains(with_branch(ordered, branch)[i])),
    decreases ordered.len(),
{
    broadcast use vstd::seq_lib::group_to_multiset_ensures;

    let all = with_branch(ordered, branch);
    if ordered.len() > 0 && branch_before(branch, ordered.last()) {
        let shorter = ordered.drop_last();
        let inner = with_branch(shorter, branch);
        assert(in_order(shorter)) by {
            assert forall|i: int, j: int| 0 <= i < j < shorter.len() implies !branch_before(
                #[trigger] shorter[j],
                #[trigger] shorter[i],
            ) by {
                assert(shorter[j] == ordered[j] && shorter[i] == ordered[i]);
            }
        }
        lemma_place_is_in_order(shorter, branch);
        assert(all == inner.push(ordered.last()));
        assert(shorter.push(ordered.last()) == ordered);
        assert(all.to_multiset() =~= ordered.to_multiset().insert(branch));
        assert forall|i: int, j: int| 0 <= i < j < all.len() implies !branch_before(
            #[trigger] all[j],
            #[trigger] all[i],
        ) by {
            if j < inner.len() {
                assert(all[j] == inner[j] && all[i] == inner[i]);
            } else {
                assert(all[j] == ordered.last() && all[i] == inner[i]);
                if inner[i] == branch {
                    text::precedes_is_total(branch, ordered.last());
                } else {
                    let k = choose|k: int| 0 <= k < shorter.len() && shorter[k] == inner[i];
                    assert(ordered[k] == inner[i]);
                    assert(ordered[ordered.len() - 1] == ordered.last());
                }
            }
        }
        assert forall|i: int| 0 <= i < all.len() implies (#[trigger] all[i] == branch
            || ordered.contains(all[i])) by {
            if i < inner.len() {
                assert(all[i] == inner[i]);
                if inner[i] != branch {
                    let k = choose|k: int| 0 <= k < shorter.len() && shorter[k] == inner[i];
                    assert(ordered[k] == all[i]);
                }
            } else {
                assert(ordered[ordered.len() - 1] == all[i]);
            }
        }
    } else {
        assert(all == ordered.push(branch));
        assert forall|i: int, j: int| 0 <= i < j < all.len() implies !branch_before(
            #[trigger] all[j],
            #[trigger] all[i],
        ) by {
            if j < ordered.len() {
                assert(all[j] == ordered[j] && all[i] == ordered[i]);
            } else if ordered.len() > 0 {
                let last = ordered[ordered.len() - 1];
                assert(all[j] == branch && all[i] == ordered[i]);
                if branch_before(branch, ordered[i]) && i < ordered.len() - 1 {
                    assert(!branch_before(last, ordered[i]));
                    lemma_not_before_chains(branch, ordered[i], last);
                }
            }
        }
    }
}

/// What is listed before an earlier branch is listed before a later one.
proof fn lemma_not_before_chains(a: Seq<char>, b: Seq<char>, c: Seq<char>)
    requires
        branch_before(a, b),
        !branch_before(c, b),
    ensures
        branch_before(a, c),
{
    text::precedes_is_total(b, c);
    if branch_rank(a) == branch_rank(c) && branch_rank(b) == branch_rank(c) {
        if b != c {
            text::precedes_is_transitive(a, b, c);
        }
    }
}

/// The pieces of a run of bytes between line feeds. There is always at least one.
pub open spec fn byte_lines(bytes: Seq<u8>) -> Seq<Seq<u8>>
    decreases bytes.len(),
{
    if bytes.len() == 0 {
        seq![Seq::<u8>::empty()]
    } else {
        let before = byte_lines(bytes.drop_last());
        if bytes.last() == 10 {
            before.push(Seq::<u8>::empty())
        } else {
            before.drop_last().push(before.last().push(bytes.last()))
        }
    }
}

/// The texts of those pieces that are valid UTF-8.
pub open spec fn valid_texts(pieces: Seq<Seq<u8>>) -> Seq<Seq<char>>
    decreases pieces.len(),
{
    if pieces.len() == 0 {
        Seq::empty()
    } else {
        let before = valid_texts(pieces.drop_last());
        match encoding::utf8_text(pieces.last()) {
            Some(line) => before.push(line),
            None => before,
        }
    }
}

/// The texts of the lines that are valid UTF-8.
fn text_lines_of(bytes: &Vec<u8>) -> (out: Vec<String>)
    ensures
        text::texts(out@) == valid_texts(byte_lines(bytes@)),
{
    let mut out: Vec<String> = Vec::new();
    let mut piece: Vec<u8> = Vec::new();
    let mut i: usize = 0;
    assert(bytes@.take(0) == Seq::<u8>::empty());
    assert(text::texts(out@) == Seq::<Seq<char>>::empty());
    assert(byte_lines(bytes@.take(0)).drop_last() == Seq::<Seq<u8>>::empty());
    while i < bytes.len()
        invariant
            i <= bytes.len(),
            byte_lines(bytes@.take(i as int)).len() >= 1,
            piece@ == byte_lines(bytes@.take(i as int)).last(),
            text::texts(out@) == valid_texts(byte_lines(bytes@.take(i as int)).drop_last()),
        decreases bytes.len() - i,
    {
        let ghost before = byte_lines(bytes@.take(i as int));
        let ghost next = byte_lines(bytes@.take(i + 1));
        assert(bytes@.take(i + 1).drop_last() == bytes@.take(i as int));
        assert(bytes@.take(i + 1).last() == bytes@[i as int]);
        if bytes[i] == 10 {
            assert(next.drop_last() == before);
            match encoding::text_from_utf8(piece.as_slice()) {
                Some(line) => push_text(&mut out, line),
                None => {},
            }
            piece = Vec::new();
            assert(next.last() == Seq::<u8>::empty());
        } else {
            piece.push(bytes[i]);
            assert(next.drop_last() == before.drop_last());
            assert(next.last() == piece@);
        }
        i = i + 1;
    }
    assert(bytes@.take(i as int) == bytes@);
    match encoding::text_from_utf8(piece.as_slice()) {
        Some(line) => push_text(&mut out, line),
        None => {},
    }
    out
}

/// The branches of a repository, as they are listed: each once, the main ones first.
pub open spec fn listed_branches(stdout: Seq<u8>) -> Seq<Seq<char>> {
    ordered_branches(config::unique_entries(valid_texts(byte_lines(stdout))))
}

/// The branches that the output of `git for-each-ref` names.
pub fn parse_branches(stdout: &Vec<u8>) -> (out: Vec<String>)
    ensures
        text::texts(out@) == listed_branches(stdout@),
{
    let unique = config::unique_strings(&text_lines_of(stdout));
    let ghost given = text::texts(unique@);
    let mut out: Vec<String> = Vec::new();
    let mut i: usize = 0;
    assert(given.take(0) == Seq::<Seq<char>>::empty());
    assert(text::texts(out@) == Seq::<Seq<char>>::empty());
    while i < unique.len()
        invariant
            i <= unique.len(),
            given == text::texts(unique@),
            text::texts(out@) == ordered_branches(given.take(i as int)),
        decreases unique.len() - i,
    {
        assert(given.take(i + 1).drop_last() == given.take(i as int));
        assert(given.take(i + 1).last() == unique@[i as int]@);
        insert_branch(&mut out, unique[i].clone());
        i = i + 1;
    }
    assert(given.take(i as int) == given);
    out
}

/// The branches of a repository, or the message of the failure to list them.
pub open spec fn branches_result(directory: Seq<char>, run: ProcessRun) -> Result<
    Seq<Seq<char>>,
    Seq<char>,
> {
    match run {
        ProcessRun::NotRun => Err("failed to list branches for "@ + directory),
        ProcessRun::Exited { success, stdout, stderr } => if success {
            Ok(listed_branches(stdout@))
        } else {
            Err(
                "git branch discovery failed for "@ + directory + ": "@ + text::trim(
                    encoding::lossy_text(stderr@),
                ),
            )
        },
    }
}

/// The branches of a repository, by how `git for-each-ref` ended.
pub fn list_repository_branches(directory: &str, run: &ProcessRun) -> (out: Result<
    Vec<String>,
    EdgeError,
>)
    ensures
        error::list_outcome(out) == branches_result(directory@, *run),
{
    match run {
        ProcessRun::NotRun => {
            let mut message = "failed to list branches for ".to_owned();
            message.append(directory);
            Err(EdgeError::of(message))
        },
        ProcessRun::Exited { success, stdout, stderr } => {
            if *success {
                return Ok(parse_branches(stdout));
            }
            let said = encoding::text_from_lossy(stderr.as_slice());
            let mut message = "git branch discovery failed for ".to_owned();
            message.append(directory);
            message.append(": ");
            message.append(&text::trimmed_text(&said));
            Err(EdgeError::of(message))
        },
    }
}

/// The arguments of the `git` command that lists branches.
pub open spec fn branch_args(directory: Seq<char>) -> Seq<Seq<char>> {
    seq!["-C"@, directory, "for-each-ref"@, "--format=%(refname:short)"@, "refs/heads"@]
}

/// Repositories in the order of their names, each put at its place.
pub open spec fn with_repository(
    ordered: Seq<DeviceRepositoryView>,
    repository: DeviceRepositoryView,
) -> Seq<DeviceRepositoryView>
    decreases ordered.len(),
{
    if ordered.len() > 0 && text::precedes(repository.name, ordered.last().name) {
        with_repository(ordered.drop_last(), repository).push(ordered.last())
    } else {
        ordered.push(repository)
    }
}

/// Repositories in the order of their names.
pub open spec fn ordered_repositories(list: Seq<DeviceRepositoryView>) -> Seq<DeviceRepositoryView>
    decreases list.len(),
{
    if list.len() == 0 {
        Seq::empty()
    } else {
        with_repository(ordered_repositories(list.drop_last()), list.last())
    }
}

/// The repositories of a list.
pub open spec fn repository_views(list: Seq<DeviceRepository>) -> Seq<DeviceRepositoryView> {
    list.map_values(|item: DeviceRepository| item@)
}

/// Puts a repository into an ordered list at its place.
fn insert_repository(ordered: &mut Vec<DeviceRepository>, repository: DeviceRepository)
    ensures
        repository_views(final(ordered)@) == with_repository(
            repository_views(old(ordered)@),
            repository@,
        ),
{
    let ghost before = repository_views(ordered@);
    let ghost item = repository@;
    let mut at: usize = ordered.len();
    assert(before.take(at as int) == before);
    assert(before.skip(at as int) == Seq::<DeviceRepositoryView>::empty());
    assert(with_repository(before, item) =~= with_repository(before.take(at as int), item)
        + before.skip(at as int));
    while at > 0 && text::text_before(&repository.name, &ordered[at - 1].name)
        invariant
            at <= ordered.len(),
            before == repository_views(ordered@),
            item == repository@,
            with_repository(before, item) == with_repository(before.take(at as int), item)
                + before.skip(at as int),
        decreases at,
    {
        let ghost here = before.take(at as int);
        assert(here.drop_last() == before.take(at - 1));
        assert(here.last() == ordered@[at - 1]@);
        assert(with_repository(here, item) + before.skip(at as int) == with_repository(
            before.take(at - 1),
            item,
        ) + before.skip(at - 1));
        at = at - 1;
    }
    assert(at > 0 ==> before.take(at as int).last() == ordered@[at - 1]@);
    assert(with_repository(before.take(at as int), item) == before.take(at as int).push(item));
    ordered.insert(at, repository);
    assert(repository_views(ordered@) == before.take(at as int).push(item) + before.skip(
        at as int,
    ));
}

/// The repositories that a scan found, in the order of their names.
pub fn discover_repository_catalog(found: Vec<DeviceRepository>) -> (out: Vec<DeviceRepository>)
    ensures
        repository_views(out@) == ordered_repositories(repository_views(found@)),
{
    let ghost given = repository_views(found@);
    let mut out: Vec<DeviceRepository> = Vec::new();
    let mut i: usize = 0;
    assert(given.take(0) == Seq::<DeviceRepositoryView>::empty());
    assert(repository_views(out@) == Seq::<DeviceRepositoryView>::empty());
    while i < found.len()
        invariant
            i <= found.len(),
            given == repository_views(found@),
            repository_views(out@) == ordered_repositories(given.take(i as int)),
        decreases found.len() - i,
    {
        assert(given.take(i + 1).drop_last() == given.take(i as int));
        assert(given.take(i + 1).last() == found@[i as int]@);
        insert_repository(&mut out, found[i].copy());
        i = i + 1;
    }
    assert(given.take(i as int) == given);
    out
}

/// The names of repositories.
pub open spec fn repository_names(list: Seq<DeviceRepositoryView>) -> Seq<Seq<char>> {
    list.map_values(|item: DeviceRepositoryView| item.name)
}

/// The names of the repositories of a catalog, in its order.
pub fn discover_repositories(catalog: &Vec<DeviceRepository>) -> (out: Vec<String>)
    ensures
        text::texts(out@) == repository_names(repository_views(catalog@)),
{
    let ghost names = repository_names(repository_views(catalog@));
    let mut out: Vec<String> = Vec::new();
    let mut i: usize = 0;
    assert(text::texts(out@) == names.take(0));
    while i < catalog.len()
        invariant
            i <= catalog.len(),
            names == repository_names(repository_views(catalog@)),
            text::texts(out@) == names.take(i as int),
        decreases catalog.len() - i,
    {
        assert(names[i as int] == catalog@[i as int].name@);
        push_text(&mut out, catalog[i].name.clone());
        assert(names.take(i + 1) == names.take(i as int).push(names[i as int]));
        i = i + 1;
    }
    assert(names.take(i as int) == names);
    out
}

/// A catalog holds the repositories that were found, ordered by name.
pub proof fn catalogs_are_ordered_by_name(list: Seq<DeviceRepositoryView>)
    ensures
        names_in_order(ordered_repositories(list)),
        ordered_repositories(list).to_multiset() == list.to_multiset(),
    decreases list.len(),
{
    broadcast use vstd::seq_lib::group_to_multiset_ensures;

    if list.len() > 0 {
        catalogs_are_ordered_by_name(list.drop_last());
        lemma_repository_is_in_order(ordered_repositories(list.drop_last()), list.last());
        assert(list.drop_last().push(list.last()) == list);
    } else {
        assert(ordered_repositories(list) == list);
    }
}

/// A list in which no repository stands behind one that its name precedes.
pub open spec fn names_in_order(list: Seq<DeviceRepositoryView>) -> bool {
    forall|i: int, j: int|
        0 <= i < j < list.len() ==> !text::precedes(#[trigger] list[j].name, #[trigger] list[i].name)
}

/// A repository that is put at its place keeps a list in order.
proof fn lemma_repository_is_in_order(
    ordered: Seq<DeviceRepositoryView>,
    repository: DeviceRepositoryView,
)
    requires
        names_in_order(ordered),
    ensures
        names_in_order(with_repository(ordered, repository)),
        with_repository(ordered, repository).to_multiset() == ordered.to_multiset().insert(
            repository,
        ),
        forall|i: int|
            0 <= i < with_repository(ordered, repository).len() ==> (
            #[trigger] with_repository(ordered, repository)[i] == repository || ordered.contains(
                with_repository(ordered, repository)[i],
            )),
    decreases ordered.len(),
{
    broadcast use vstd::seq_lib::group_to_multiset_ensures;

    let all = with_repository(ordered, repository);
    if ordered.len() > 0 && text::precedes(repository.name, ordered.last().name) {
        let shorter = ordered.drop_last();
        let inner = with_repository(shorter, repository);
        assert(names_in_order(shorter)) by {
            assert forall|i: int, j: int| 0 <= i < j < shorter.len() implies !text::precedes(
                #[trigger] shorter[j].name,
                #[trigger] shorter[i].name,
            ) by {
                assert(shorter[j] == ordered[j] && shorter[i] == ordered[i]);
            }
        }
        lemma_repository_is_in_order(shorter, repository);
        assert(all == inner.push(ordered.last()));
        assert(shorter.push(ordered.last()) == ordered);
        assert(all.to_multiset() =~= ordered.to_multiset().insert(repository));
        assert forall|i: int, j: int| 0 <= i < j < all.len() implies !text::precedes(
            #[trigger] all[j].name,
            #[trigger] all[i].name,
        ) by {
            if j < inner.len() {
                assert(all[j] == inner[j] && all[i] == inner[i]);
            } else {
                assert(all[j] == ordered.last() && all[i] == inner[i]);
                if inner[i] == repository {
                    text::precedes_is_total(repository.name, ordered.last().name);
                } else {
                    let k = choose|k: int| 0 <= k < shorter.len() && shorter[k] == inner[i];
                    assert(ordered[k] == inner[i]);
                    assert(ordered[ordered.len() - 1] == ordered.last());
                }
            }
        }
        assert forall|i: int| 0 <= i < all.len() implies (#[trigger] all[i] == repository
            || ordered.contains(all[i])) by {
            if i < inner.len() {
                assert(all[i] == inner[i]);
                if inner[i] != repository {
                    let k = choose|k: int| 0 <= k < shorter.len() && shorter[k] == inner[i];
                    assert(ordered[k] == all[i]);
                }
            } else {
                assert(ordered[ordered.len() - 1] == all[i]);
            }
        }
    } else {
        assert(all == ordered.push(repository));
        assert forall|i: int, j: int| 0 <= i < j < all.len() implies !text::precedes(
            #[trigger] all[j].name,
            #[trigger] all[i].name,
        ) by {
            if j < ordered.len() {
                assert(all[j] == ordered[j] && all[i] == ordered[i]);
            } else if ordered.len() > 0 {
                let last = ordered[ordered.len() - 1];
                assert(all[j] == repository && all[i] == ordered[i]);
                if text::precedes(repository.name, ordered[i].name) && i < ordered.len() - 1 {
                    assert(!text::precedes(last.name, ordered[i].name));
                    text::precedes_is_total(ordered[i].name, last.name);
                    if ordered[i].name != last.name {
                        text::precedes_is_transitive(
                            repository.name,
                            ordered[i].name,
                            last.name,
                        );
                    }
                }
            }
        }
    }
}

/// What a scan has still to do.
#[derive(Clone, Debug, PartialEq, Eq)]
pub enum Pending {
    /// A directory is to be visited.
    Directory { path: String },
    /// A directory could not be read to its end.
    Failure { error: String },
}

/// The contents of a [`Pending`].
pub enum PendingView {
    Directory { path: Seq<char> },
    Failure { error: Seq<char> },
}

impl View for Pending {
    type V = PendingView;

    open spec fn view(&self) -> PendingView {
        match *self {
            Pending::Directory { path } => PendingView::Directory {
                path: path@,
            },
            Pending::Failure { error } => PendingView::Failure {
                error: error@,
            },
        }
    }
}

/// What a scan waits for.
#[derive(Clone, Debug, PartialEq, Eq)]
pub enum ScanPhase {
    /// A directory is being looked at.
    Checking { directory: String },
    /// The branches of a repository are being listed.
    Listing { directory: String, name: String },
    /// The entries of a directory are being read.
    Reading { directory: String },
    /// Nothing: the scan has ended.
    Ended,
}

/// The contents of a [`ScanPhase`].
pub enum ScanPhaseView {
    Checking { directory: Seq<char> },
    Listing { directory: Seq<char>, name: Seq<char> },
    Reading { directory: Seq<char> },
    Ended,
}

impl View for ScanPhase {
    type V = ScanPhaseView;

    open spec fn view(&self) -> ScanPhaseView {
        match *self {
            ScanPhase::Checking { directory } => ScanPhaseView::Checking {
                directory: directory@,
            },
            ScanPhase::Listing { directory, name } => ScanPhaseView::Listing {
                directory: directory@,
                name: name@,
            },
            ScanPhase::Reading { directory } => ScanPhaseView::Reading {
                directory: directory@,
            },
            ScanPhase::Ended => ScanPhaseView::Ended,
        }
    }
}

/// What is to be done next for a scan.
#[derive(Clone, Debug, PartialEq, Eq)]
pub enum ScanAction {
    /// A path is to be looked at.
    CheckGit { path: String },
    /// `git` is to be run with these arguments.
    ListBranches { args: Vec<String> },
    /// The entries of a directory are to be read.
    ReadDirectory { directory: String },
    /// The repository that was looked for stands here.
    Found { directory: String },
    /// There is nothing left to visit.
    Finish,
    /// The scan has failed.
    BreakOff { error: String },
    /// Nothing: what was reported is not what the scan waits for.
    Wait,
}

/// The contents of a [`ScanAction`].
pub enum ScanActionView {
    CheckGit { path: Seq<char> },
    ListBranches { args: Seq<Seq<char>> },
    ReadDirectory { directory: Seq<char> },
    Found { directory: Seq<char> },
    Finish,
    BreakOff { error: Seq<char> },
    Wait,
}

impl View for ScanAction {
    type V = ScanActionView;

    open spec fn view(&self) -> ScanActionView {
        match *self {
            ScanAction::CheckGit { path } => ScanActionView::CheckGit {
                path: path@,
            },
            ScanAction::ListBranches { args } => ScanActionView::ListBranches {
                args: text::texts(args@),
            },
            ScanAction::ReadDirectory { directory } => ScanActionView::ReadDirectory {
                directory: directory@,
            },
            ScanAction::Found { directory } => ScanActionView::Found {
                directory: directory@,
            },
            ScanAction::Finish => ScanActionView::Finish,
            ScanAction::BreakOff { error } => ScanActionView::BreakOff {
                error: error@,
            },
            ScanAction::Wait => ScanActionView::Wait,
        }
    }
}

/// An entry of a directory. One whose name is no text has none here.
pub struct DirectoryEntry {
    pub name: Option<String>,
    pub is_dir: bool,
    pub is_symlink: bool,
}

/// Where the reading of a directory broke off.
pub enum EntryFailure {
    /// An entry could not be read.
    Entry,
    /// The kind of an entry could not be read.
    Kind { path: String },
}

/// What a path turned out to be.
#[derive(Clone, Copy, Debug, PartialEq, Eq, Structural)]
pub enum GitFact {
    /// A file or a directory.
    Present,
    /// Nothing, or something else.
    Absent,
    /// It could not be looked at.
    Failed,
}

/// What was done for a scan.
pub enum ScanInput {
    /// The path was looked at.
    GitChecked { fact: GitFact },
    /// The branches were listed, or could not be.
    BranchesListed { run: ProcessRun },
    /// The directory could not be read.
    DirectoryNotRead,
    /// The entries of the directory, as far as they could be read.
    DirectoryRead { entries: Vec<DirectoryEntry>, failure: Option<EntryFailure> },
}

/// The progress of a scan: what is still to be visited, what has been found, and what is going on.
/// What is to be visited next stands last.
pub struct Scan {
    pub pending: Vec<Pending>,
    pub found: Vec<DeviceRepository>,
    pub phase: ScanPhase,
}

/// The contents of a [`Scan`].
pub struct ScanView {
    pub pending: Seq<PendingView>,
    pub found: Seq<DeviceRepositoryView>,
    pub phase: ScanPhaseView,
}

/// What a list of pending things holds.
pub open spec fn pending_views(list: Seq<Pending>) -> Seq<PendingView> {
    list.map_values(|item: Pending| item@)
}

impl View for Scan {
    type V = ScanView;

    open spec fn view(&self) -> ScanView {
        ScanView {
            pending: pending_views(self.pending@),
            found: repository_views(self.found@),
            phase: self.phase@,
        }
    }
}

/// Where the mark of a repository stands in a directory.
pub open spec fn git_path(style: PathStyle, directory: Seq<char>) -> Seq<char> {
    paths::join(style, directory, ".git"@)
}

/// What marks a directory as a repository.
pub fn git_path_of(style: PathStyle, directory: &str) -> (out: String)
    ensures
        out@ == git_path(style, directory@),
{
    paths::join_path(style, directory, ".git")
}

/// The next visit of a scan: excluded directories are passed over.
pub open spec fn next_visit(
    style: PathStyle,
    excluded: Seq<Seq<char>>,
    pending: Seq<PendingView>,
    found: Seq<DeviceRepositoryView>,
) -> (ScanView, ScanActionView)
    decreases pending.len(),
{
    if pending.len() == 0 {
        (ScanView { pending, found, phase: ScanPhaseView::Ended }, ScanActionView::Finish)
    } else {
        match pending.last() {
            PendingView::Failure { error } => (
                ScanView { pending: pending.drop_last(), found, phase: ScanPhaseView::Ended },
                ScanActionView::BreakOff { error },
            ),
            PendingView::Directory { path } => if paths::lies_within_any(style, path, excluded) {
                next_visit(style, excluded, pending.drop_last(), found)
            } else {
                (
                    ScanView {
                        pending: pending.drop_last(),
                        found,
                        phase: ScanPhaseView::Checking { directory: path },
                    },
                    ScanActionView::CheckGit { path: git_path(style, path) },
                )
            },
        }
    }
}

/// The contents of a step.
pub open spec fn step_view(step: (Scan, ScanAction)) -> (ScanView, ScanActionView) {
    (step.0@, step.1@)
}

/// The next visit of a scan.
fn visit_next(
    style: PathStyle,
    excluded: &Vec<String>,
    stack: Vec<Pending>,
    found: Vec<DeviceRepository>,
) -> (step: (
    Scan,
    ScanAction,
))
    ensures
        step_view(step) == next_visit(
            style,
            text::texts(excluded@),
            pending_views(stack@),
            repository_views(found@),
        ),
{
    let mut pending = stack;
    loop
        invariant
            next_visit(
                style,
                text::texts(excluded@),
                pending_views(stack@),
                repository_views(found@),
            ) == next_visit(
                style,
                text::texts(excluded@),
                pending_views(pending@),
                repository_views(found@),
            ),
        decreases pending.len(),
    {
        let ghost before = pending_views(pending@);
        match pending.pop() {
            None => {
                assert(before.len() == 0);
                assert(pending_views(pending@) == before);
                return (Scan { pending, found, phase: ScanPhase::Ended }, ScanAction::Finish);
            },
            Some(item) => {
                assert(before.last() == item@);
                assert(pending_views(pending@) == before.drop_last());
                match item {
                    Pending::Failure { error } => {
                        return (
                            Scan { pending, found, phase: ScanPhase::Ended },
                            ScanAction::BreakOff { error },
                        );
                    },
                    Pending::Directory { path } => {
                        if !paths::path_within_any(style, &path, excluded) {
                            let mark = git_path_of(style, &path);
                            return (
                                Scan {
                                    pending,
                                    found,
                                    phase: ScanPhase::Checking { directory: path },
                                },
                                ScanAction::CheckGit { path: mark },
                            );
                        }
                    },
                }
            },
        }
    }
}

/// Roots in the order in which a scan takes them up: the first stands last.
pub open spec fn stacked_roots(roots: Seq<Seq<char>>) -> Seq<PendingView>
    decreases roots.len(),
{
    if roots.len() == 0 {
        Seq::empty()
    } else {
        stacked_roots(roots.drop_first()).push(PendingView::Directory { path: roots[0] })
    }
}

/// Roots in the order in which a scan takes them up.
fn stack_roots(roots: &Vec<String>) -> (out: Vec<Pending>)
    ensures
        pending_views(out@) == stacked_roots(text::texts(roots@)),
{
    let ghost given = text::texts(roots@);
    let mut out: Vec<Pending> = Vec::new();
    let mut i: usize = roots.len();
    assert(given.skip(i as int) == Seq::<Seq<char>>::empty());
    assert(pending_views(out@) == Seq::<PendingView>::empty());
    while i > 0
        invariant
            i <= roots.len(),
            given == text::texts(roots@),
            pending_views(out@) == stacked_roots(given.skip(i as int)),
        decreases i,
    {
        let ghost before = pending_views(out@);
        assert(given.skip(i - 1).drop_first() == given.skip(i as int));
        assert(given.skip(i - 1)[0] == roots@[i - 1]@);
        out.push(Pending::Directory { path: roots[i - 1].clone() });
        assert(pending_views(out@) == before.push(PendingView::Directory { path: roots@[i - 1]@ }));
        i = i - 1;
    }
    assert(given.skip(0) == given);
    out
}

/// The first step of a scan over roots.
pub fn start_scan(
    style: PathStyle,
    roots: &Vec<String>,
    excluded: &Vec<String>,
) -> (step: (Scan, ScanAction))
    ensures
        step_view(step) == next_visit(
            style,
            text::texts(excluded@),
            stacked_roots(text::texts(roots@)),
            Seq::empty(),
        ),
{
    let found: Vec<DeviceRepository> = Vec::new();
    assert(repository_views(found@) == Seq::<DeviceRepositoryView>::empty());
    visit_next(style, excluded, stack_roots(roots), found)
}

/// An entry that a scan goes into.
pub open spec fn is_entered(entry: DirectoryEntry) -> bool {
    &&& entry.is_dir
    &&& !entry.is_symlink
    &&& match entry.name {
        Some(name) => !is_skipped(name@),
        None => false,
    }
}

/// The entries that a scan goes into, in the order in which it takes them up: the first stands
/// last.
pub open spec fn stacked_entries(
    style: PathStyle,
    directory: Seq<char>,
    entries: Seq<DirectoryEntry>,
) -> Seq<
    PendingView,
>
    decreases entries.len(),
{
    if entries.len() == 0 {
        Seq::empty()
    } else {
        let later = stacked_entries(style, directory, entries.drop_first());
        if is_entered(entries[0]) {
            later.push(
                PendingView::Directory { path: paths::join(style, directory, entries[0].name->0@) },
            )
        } else {
            later
        }
    }
}

/// The failure that ends the reading of a directory, if there is one.
pub open spec fn stacked_failure(directory: Seq<char>, failure: Option<EntryFailure>) -> Seq<
    PendingView,
> {
    match failure {
        None => Seq::empty(),
        Some(EntryFailure::Entry) => seq![
            PendingView::Failure { error: "failed to inspect "@ + directory },
        ],
        Some(EntryFailure::Kind { path }) => seq![
            PendingView::Failure { error: "failed to read file type for "@ + path@ },
        ],
    }
}

/// What is to be visited after a directory has been read: its entries, then a failure that ended
/// the reading, then what was to be visited before.
pub open spec fn after_reading(
    style: PathStyle,
    pending: Seq<PendingView>,
    directory: Seq<char>,
    entries: Seq<DirectoryEntry>,
    failure: Option<EntryFailure>,
) -> Seq<PendingView> {
    pending + stacked_failure(directory, failure) + stacked_entries(style, directory, entries)
}

/// Adds what is to be visited after a directory has been read.
fn stack_entries(
    style: PathStyle,
    pending: &mut Vec<Pending>,
    directory: &str,
    entries: &Vec<DirectoryEntry>,
    failure: &Option<EntryFailure>,
)
    ensures
        pending_views(final(pending)@) == after_reading(
            style,
            pending_views(old(pending)@),
            directory@,
            entries@,
            *failure,
        ),
{
    let ghost before = pending_views(pending@);
    match failure {
        None => {},
        Some(EntryFailure::Entry) => {
            let mut error = "failed to inspect ".to_owned();
            error.append(directory);
            pending.push(Pending::Failure { error });
        },
        Some(EntryFailure::Kind { path }) => {
            let mut error = "failed to read file type for ".to_owned();
            error.append(path);
            pending.push(Pending::Failure { error });
        },
    }
    let ghost base = before + stacked_failure(directory@, *failure);
    assert(pending_views(pending@) == base);
    let mut i: usize = entries.len();
    assert(entries@.skip(i as int) == Seq::<DirectoryEntry>::empty());
    assert(base + Seq::<PendingView>::empty() == base);
    while i > 0
        invariant
            i <= entries.len(),
            pending_views(pending@) == base + stacked_entries(
                style,
                directory@,
                entries@.skip(i as int),
            ),
        decreases i,
    {
        let ghost here = entries@.skip(i - 1);
        assert(here.drop_first() == entries@.skip(i as int));
        assert(here[0] == entries@[i - 1]);
        let ghost so_far = pending_views(pending@);
        let entry = &entries[i - 1];
        if entry.is_dir && !entry.is_symlink {
            if let Some(name) = &entry.name {
                if !should_skip_repo_scan_directory(name) {
                    let path = paths::join_path(style, directory, name);
                    pending.push(Pending::Directory { path });
                    assert(pending_views(pending@) == so_far.push(
                        PendingView::Directory { path: path@ },
                    ));
                    assert(pending_views(pending@) == base + stacked_entries(
                        style,
                        directory@,
                        here,
                    ));
                }
            }
        }
        i = i - 1;
    }
    assert(entries@.skip(0) == entries@);
}

/// The name of the repository that stands in a directory.
pub open spec fn repository_name(style: PathStyle, directory: Seq<char>) -> Option<Seq<char>> {
    match paths::file_name(style, directory) {
        Some(name) => if text::trim(name).len() == 0 {
            None
        } else {
            Some(text::trim(name))
        },
        None => None,
    }
}

/// The name of the repository that stands in a directory.
fn name_of_repository(style: PathStyle, directory: &str) -> (out: Option<String>)
    ensures
        text::opt_text(out) == repository_name(style, directory@),
{
    match paths::path_file_name(style, directory) {
        Some(name) => {
            let body = text::trimmed_text(&name);
            if body.as_str().is_empty() {
                None
            } else {
                Some(body)
            }
        },
        None => None,
    }
}

/// A step that ends a scan.
pub open spec fn scan_broken(scan: ScanView, error: Seq<char>) -> (ScanView, ScanActionView) {
    (ScanView { phase: ScanPhaseView::Ended, ..scan }, ScanActionView::BreakOff { error })
}

/// A step at which a directory is read.
pub open spec fn reading_step(
    pending: Seq<PendingView>,
    found: Seq<DeviceRepositoryView>,
    directory: Seq<char>,
) -> (ScanView, ScanActionView) {
    (
        ScanView { pending, found, phase: ScanPhaseView::Reading { directory } },
        ScanActionView::ReadDirectory { directory },
    )
}

/// The step that follows the reading of a directory.
pub open spec fn after_directory(
    style: PathStyle,
    excluded: Seq<Seq<char>>,
    scan: ScanView,
    directory: Seq<char>,
    input: ScanInput,
) -> (ScanView, ScanActionView) {
    match input {
        ScanInput::DirectoryNotRead => scan_broken(
            scan,
            "failed to read repository root "@ + directory,
        ),
        ScanInput::DirectoryRead { entries, failure } => next_visit(
            style,
            excluded,
            after_reading(style, scan.pending, directory, entries@, failure),
            scan.found,
        ),
        _ => (scan, ScanActionView::Wait),
    }
}

/// The step that follows what was done for a scan that collects repositories.
pub open spec fn next_scan_step(
    style: PathStyle,
    excluded: Seq<Seq<char>>,
    scan: ScanView,
    input: ScanInput,
) -> (ScanView, ScanActionView) {
    match scan.phase {
        ScanPhaseView::Checking { directory } => match input {
            ScanInput::GitChecked { fact } => match fact {
                GitFact::Failed => scan_broken(
                    scan,
                    "failed to inspect "@ + git_path(style, directory),
                ),
                GitFact::Absent => reading_step(scan.pending, scan.found, directory),
                GitFact::Present => match repository_name(style, directory) {
                    Some(name) => if repository_names(scan.found).contains(name) {
                        reading_step(scan.pending, scan.found, directory)
                    } else {
                        (
                            ScanView { phase: ScanPhaseView::Listing { directory, name }, ..scan },
                            ScanActionView::ListBranches { args: branch_args(directory) },
                        )
                    },
                    None => reading_step(scan.pending, scan.found, directory),
                },
            },
            _ => (scan, ScanActionView::Wait),
        },
        ScanPhaseView::Listing { directory, name } => match input {
            ScanInput::BranchesListed { run } => match branches_result(directory, run) {
                Err(message) => scan_broken(scan, message),
                Ok(branches) => reading_step(
                    scan.pending,
                    scan.found.push(DeviceRepositoryView { name, branches }),
                    directory,
                ),
            },
            _ => (scan, ScanActionView::Wait),
        },
        ScanPhaseView::Reading { directory } => after_directory(
            style,
            excluded,
            scan,
            directory,
            input,
        ),
        ScanPhaseView::Ended => (scan, ScanActionView::Wait),
    }
}

/// Whether a repository of this name has been found.
fn has_repository(found: &Vec<DeviceRepository>, name: &str) -> (yes: bool)
    ensures
        yes == repository_names(repository_views(found@)).contains(name@),
{
    let ghost names = repository_names(repository_views(found@));
    let mut i: usize = 0;
    while i < found.len()
        invariant
            i <= found.len(),
            names == repository_names(repository_views(found@)),
            forall|k: int| 0 <= k < i ==> names[k] != name@,
        decreases found.len() - i,
    {
        assert(names[i as int] == found@[i as int].name@);
        if text::text_eq(&found[i].name, name) {
            return true;
        }
        i = i + 1;
    }
    false
}

/// A step at which a directory is read.
fn read_directory(pending: Vec<Pending>, found: Vec<DeviceRepository>, directory: String) -> (step: (
    Scan,
    ScanAction,
))
    ensures
        step_view(step) == reading_step(
            pending_views(pending@),
            repository_views(found@),
            directory@,
        ),
{
    let again = directory.clone();
    (
        Scan { pending, found, phase: ScanPhase::Reading { directory } },
        ScanAction::ReadDirectory { directory: again },
    )
}

/// A step that ends a scan.
fn break_scan(pending: Vec<Pending>, found: Vec<DeviceRepository>, error: String) -> (step: (
    Scan,
    ScanAction,
))
    ensures
        step_view(step) == (
            ScanView {
                pending: pending_views(pending@),
                found: repository_views(found@),
                phase: ScanPhaseView::Ended,
            },
            ScanActionView::BreakOff { error: error@ },
        ),
{
    (Scan { pending, found, phase: ScanPhase::Ended }, ScanAction::BreakOff { error })
}

/// The step that follows the reading of a directory.
fn step_after_directory(
    style: PathStyle,
    excluded: &Vec<String>,
    pending: Vec<Pending>,
    found: Vec<DeviceRepository>,
    directory: String,
    input: ScanInput,
) -> (step: (Scan, ScanAction))
    ensures
        step_view(step) == after_directory(
            style,
            text::texts(excluded@),
            ScanView {
                pending: pending_views(pending@),
                found: repository_views(found@),
                phase: ScanPhaseView::Reading { directory: directory@ },
            },
            directory@,
            input,
        ),
{
    match input {
        ScanInput::DirectoryNotRead => {
            let error = text::message_about("failed to read repository root ", &directory);
            break_scan(pending, found, error)
        },
        ScanInput::DirectoryRead { entries, failure } => {
            let mut pending = pending;
            stack_entries(style, &mut pending, &directory, &entries, &failure);
            visit_next(style, excluded, pending, found)
        },
        _ => (Scan { pending, found, phase: ScanPhase::Reading { directory } }, ScanAction::Wait),
    }
}

/// The arguments of the `git` command that lists branches.
fn args_for_branches(directory: &str) -> (args: Vec<String>)
    ensures
        text::texts(args@) == branch_args(directory@),
{
    let mut args: Vec<String> = Vec::new();
    push_text(&mut args, "-C".to_owned());
    push_text(&mut args, directory.to_owned());
    push_text(&mut args, "for-each-ref".to_owned());
    push_text(&mut args, "--format=%(refname:short)".to_owned());
    push_text(&mut args, "refs/heads".to_owned());
    assert(text::texts(args@) == branch_args(directory@));
    args
}

/// The step that follows what was done for a scan that collects repositories.
pub fn discover_repositories_from_root(
    style: PathStyle,
    excluded: &Vec<String>,
    scan: Scan,
    input: ScanInput,
) -> (step: (Scan, ScanAction))
    ensures
        step_view(step) == next_scan_step(style, text::texts(excluded@), scan@, input),
{
    let Scan { pending, found, phase } = scan;
    match phase {
        ScanPhase::Checking { directory } => match input {
            ScanInput::GitChecked { fact } => match fact {
                GitFact::Failed => {
                    let mark = git_path_of(style, &directory);
                    let error = text::message_about("failed to inspect ", &mark);
                    break_scan(pending, found, error)
                },
                GitFact::Absent => read_directory(pending, found, directory),
                GitFact::Present => match name_of_repository(style, &directory) {
                    Some(name) => if has_repository(&found, &name) {
                        read_directory(pending, found, directory)
                    } else {
                        let args = args_for_branches(&directory);
                        (
                            Scan { pending, found, phase: ScanPhase::Listing { directory, name } },
                            ScanAction::ListBranches { args },
                        )
                    },
                    None => read_directory(pending, found, directory),
                },
            },
            _ => (
                Scan { pending, found, phase: ScanPhase::Checking { directory } },
                ScanAction::Wait,
            ),
        },
        ScanPhase::Listing { directory, name } => match input {
            ScanInput::BranchesListed { run } => match list_repository_branches(&directory, &run) {
                Err(error) => break_scan(pending, found, error.message),
                Ok(branches) => {
                    let ghost before = repository_views(found@);
                    let mut found = found;
                    let repository = DeviceRepository { name, branches };
                    found.push(repository);
                    assert(repository_views(found@) == before.push(repository@));
                    read_directory(pending, found, directory)
                },
            },
            _ => (
                Scan { pending, found, phase: ScanPhase::Listing { directory, name } },
                ScanAction::Wait,
            ),
        },
        ScanPhase::Reading { directory } => step_after_directory(
            style,
            excluded,
            pending,
            found,
            directory,
            input,
        ),
        ScanPhase::Ended => (Scan { pending, found, phase: ScanPhase::Ended }, ScanAction::Wait),
    }
}

/// The step that follows what was done for a search for one repository.
pub open spec fn next_search_step(
    style: PathStyle,
    excluded: Seq<Seq<char>>,
    repo_name: Seq<char>,
    scan: ScanView,
    input: ScanInput,
) -> (ScanView, ScanActionView) {
    match scan.phase {
        ScanPhaseView::Checking { directory } => match input {
            ScanInput::GitChecked { fact } => match fact {
                GitFact::Failed => scan_broken(
                    scan,
                    "failed to inspect "@ + git_path(style, directory),
                ),
                GitFact::Absent => reading_step(scan.pending, scan.found, directory),
                GitFact::Present => if bears_name(style, directory, repo_name) {
                    (
                        ScanView { phase: ScanPhaseView::Ended, ..scan },
                        ScanActionView::Found { directory },
                    )
                } else {
                    reading_step(scan.pending, scan.found, directory)
                },
            },
            _ => (scan, ScanActionView::Wait),
        },
        ScanPhaseView::Reading { directory } => after_directory(
            style,
            excluded,
            scan,
            directory,
            input,
        ),
        _ => (scan, ScanActionView::Wait),
    }
}

/// A directory whose name is that of a repository.
pub open spec fn bears_name(style: PathStyle, directory: Seq<char>, repo_name: Seq<char>) -> bool {
    match paths::file_name(style, directory) {
        Some(name) => text::trim(name) == repo_name,
        None => false,
    }
}

/// The step that follows what was done for a search for one repository.
pub fn find_repo_root_in_directory(
    style: PathStyle,
    excluded: &Vec<String>,
    repo_name: &str,
    scan: Scan,
    input: ScanInput,
) -> (step: (Scan, ScanAction))
    ensures
        step_view(step) == next_search_step(
            style,
            text::texts(excluded@),
            repo_name@,
            scan@,
            input,
        ),
{
    let Scan { pending, found, phase } = scan;
    match phase {
        ScanPhase::Checking { directory } => match input {
            ScanInput::GitChecked { fact } => match fact {
                GitFact::Failed => {
                    let mark = git_path_of(style, &directory);
                    let error = text::message_about("failed to inspect ", &mark);
                    break_scan(pending, found, error)
                },
                GitFact::Absent => read_directory(pending, found, directory),
                GitFact::Present => {
                    let named = match paths::path_file_name(style, &directory) {
                        Some(name) => text::text_eq(&text::trimmed_text(&name), repo_name),
                        None => false,
                    };
                    if named {
                        (
                            Scan { pending, found, phase: ScanPhase::Ended },
                            ScanAction::Found { directory },
                        )
                    } else {
                        read_directory(pending, found, directory)
                    }
                },
            },
            _ => (
                Scan { pending, found, phase: ScanPhase::Checking { directory } },
                ScanAction::Wait,
            ),
        },
        ScanPhase::Reading { directory } => step_after_directory(
            style,
            excluded,
            pending,
            found,
            directory,
            input,
        ),
        other => (Scan { pending, found, phase: other }, ScanAction::Wait),
    }
}

/// The roots of a search: the workspace first, then the repository roots that differ from it and
/// from each other.
pub open spec fn search_roots(
    style: PathStyle,
    workspace_root: Seq<char>,
    roots: Seq<Seq<char>>,
) -> Seq<Seq<char>>
    decreases roots.len(),
{
    if roots.len() == 0 {
        seq![workspace_root]
    } else {
        let before = search_roots(style, workspace_root, roots.drop_last());
        if config::lists_path(style, before, roots.last()) {
            before
        } else {
            before.push(roots.last())
        }
    }
}

/// The roots of a search.
fn roots_to_search(
    style: PathStyle,
    workspace_root: &str,
    allowed_roots: &Vec<String>,
) -> (out: Vec<String>)
    ensures
        text::texts(out@) == search_roots(style, workspace_root@, text::texts(allowed_roots@)),
{
    let ghost given = text::texts(allowed_roots@);
    let mut out: Vec<String> = Vec::new();
    push_text(&mut out, workspace_root.to_owned());
    let mut i: usize = 0;
    assert(given.take(0) == Seq::<Seq<char>>::empty());
    assert(text::texts(out@) == seq![workspace_root@]);
    while i < allowed_roots.len()
        invariant
            i <= allowed_roots.len(),
            given == text::texts(allowed_roots@),
            text::texts(out@) == search_roots(style, workspace_root@, given.take(i as int)),
        decreases allowed_roots.len() - i,
    {
        assert(given.take(i + 1).drop_last() == given.take(i as int));
        assert(given.take(i + 1).last() == allowed_roots@[i as int]@);
        if !config::path_is_listed(style, &out, &allowed_roots[i]) {
            push_text(&mut out, allowed_roots[i].clone());
        }
        i = i + 1;
    }
    assert(given.take(i as int) == given);
    out
}

/// The first step of a search for a repository.
pub fn resolve_repo_root(
    style: PathStyle,
    workspace_root: &str,
    allowed_roots: &Vec<String>,
    excluded: &Vec<String>,
) -> (step: (Scan, ScanAction))
    ensures
        step_view(step) == next_visit(
            style,
            text::texts(excluded@),
            stacked_roots(search_roots(style, workspace_root@, text::texts(allowed_roots@))),
            Seq::empty(),
        ),
{
    start_scan(style, &roots_to_search(style, workspace_root, allowed_roots), excluded)
}

/// The failure of a search that found nothing.
pub fn repository_not_found(repo_name: &str) -> (error: EdgeError)
    ensures
        error@ == "workspace repository `"@ + repo_name@ + "` was not found"@,
{
    let mut message = "workspace repository `".to_owned();
    message.append(repo_name);
    message.append("` was not found");
    EdgeError::of(message)
}

/// A scan that is not looking at an excluded directory, and that has found every repository only
/// once and under a trimmed name.
pub open spec fn is_sound(style: PathStyle, excluded: Seq<Seq<char>>, scan: ScanView) -> bool {
    &&& match scan.phase {
        ScanPhaseView::Checking { directory } => !paths::lies_within_any(
            style,
            directory,
            excluded,
        ),
        ScanPhaseView::Listing { directory, name } => {
            &&& !paths::lies_within_any(style, directory, excluded)
            &&& repository_name(style, directory) == Some(name)
            &&& !repository_names(scan.found).contains(name)
        },
        ScanPhaseView::Reading { directory } => !paths::lies_within_any(style, directory, excluded),
        ScanPhaseView::Ended => true,
    }
    &&& repository_names(scan.found).no_duplicates()
    &&& forall|i: int|
        0 <= i < scan.found.len() ==> {
            let name = #[trigger] scan.found[i].name;
            name.len() > 0 && text::trim(name) == name
        }
}

/// A visit keeps what was found, and goes to no excluded directory.
proof fn lemma_visits_are_sound(
    style: PathStyle,
    excluded: Seq<Seq<char>>,
    pending: Seq<PendingView>,
    found: Seq<DeviceRepositoryView>,
)
    ensures
        next_visit(style, excluded, pending, found).0.found == found,
        next_visit(style, excluded, pending, found).0.phase !is Listing,
        next_visit(style, excluded, pending, found).0.phase !is Reading,
        next_visit(
            style,
            excluded,
            pending,
            found,
        ).0.phase matches ScanPhaseView::Checking { directory }
            ==> !paths::lies_within_any(style, directory, excluded),
    decreases pending.len(),
{
    if pending.len() > 0 {
        lemma_visits_are_sound(style, excluded, pending.drop_last(), found);
    }
}

/// Every scan is sound from its first step on, and every step keeps it so: an excluded directory
/// is never looked at, listed or read, and no repository is found twice.
pub proof fn scans_are_sound(
    style: PathStyle,
    excluded: Seq<Seq<char>>,
    roots: Seq<Seq<char>>,
    repo_name: Seq<char>,
    scan: ScanView,
    input: ScanInput,
)
    ensures
        is_sound(
            style,
            excluded,
            next_visit(style, excluded, stacked_roots(roots), Seq::empty()).0,
        ),
        is_sound(
            style,
            excluded,
            scan,
        ) ==> is_sound(style, excluded, next_scan_step(style, excluded, scan, input).0),
        is_sound(style, excluded, scan) ==> is_sound(
            style,
            excluded,
            next_search_step(style, excluded, repo_name, scan, input).0,
        ),
{
    lemma_visits_are_sound(style, excluded, stacked_roots(roots), Seq::empty());
    assert(repository_names(Seq::empty()).no_duplicates());
    match input {
        ScanInput::DirectoryRead { entries, failure } => {
            match scan.phase {
                ScanPhaseView::Reading { directory } => {
                    lemma_visits_are_sound(
                        style,
                        excluded,
                        after_reading(style, scan.pending, directory, entries@, failure),
                        scan.found,
                    );
                },
                _ => {},
            }
        },
        _ => {},
    }
    if is_sound(style, excluded, scan) {
        match scan.phase {
            ScanPhaseView::Listing { directory, name } => {
                match paths::file_name(style, directory) {
                    Some(raw) => {
                        text::trimming_twice_changes_nothing(raw);
                    },
                    None => {},
                }
                let next = next_scan_step(style, excluded, scan, input).0;
                if next.found != scan.found {
                    let names = repository_names(scan.found);
                    let item = next.found.last();
                    assert(next.found == scan.found.push(item));
                    assert(item.name == name);
                    assert(repository_names(next.found) == names.push(name));
                    assert(forall|i: int|
                        0 <= i < scan.found.len() ==> next.found[i] == scan.found[i]);
                }
            },
            _ => {},
        }
    }
}

/// A search finds a repository only under its name.
pub proof fn searches_find_the_name(
    style: PathStyle,
    excluded: Seq<Seq<char>>,
    repo_name: Seq<char>,
    scan: ScanView,
    input: ScanInput,
)
    requires
        is_sound(style, excluded, scan),
    ensures
        next_search_step(style, excluded, repo_name, scan, input).1 matches ScanActionView::Found {
            directory,
        } ==> {
            &&& bears_name(style, directory, repo_name)
            &&& !paths::lies_within_any(style, directory, excluded)
        },
{
    match input {
        ScanInput::DirectoryRead { entries, failure } => {
            match scan.phase {
                ScanPhaseView::Reading { directory } => {
                    lemma_visits_find_nothing(
                        style,
                        excluded,
                        after_reading(style, scan.pending, directory, entries@, failure),
                        scan.found,
                    );
                },
                _ => {},
            }
        },
        _ => {},
    }
}

/// A visit by itself finds nothing.
proof fn lemma_visits_find_nothing(
    style: PathStyle,
    excluded: Seq<Seq<char>>,
    pending: Seq<PendingView>,
    found: Seq<DeviceRepositoryView>,
)
    ensures
        next_visit(style, excluded, pending, found).1 !is Found,
    decreases pending.len(),
{
    if pending.len() > 0 {
        lemma_visits_find_nothing(style, excluded, pending.drop_last(), found);
    }
}

/// A disk as a scan sees it, where everything can be read: whether a path is there, what the
/// listing of branches prints, and which entries a directory has.
pub struct Disk {
    pub present: spec_fn(Seq<char>) -> bool,
    pub branches: spec_fn(Seq<Seq<char>>) -> Vec<u8>,
    pub entries: spec_fn(Seq<char>) -> Vec<DirectoryEntry>,
}

/// What a disk answers to an action of a scan.
pub open spec fn answer(disk: Disk, action: ScanActionView) -> ScanInput {
    match action {
        ScanActionView::CheckGit { path } => ScanInput::GitChecked {
            fact: if (disk.present)(path) {
                GitFact::Present
            } else {
                GitFact::Absent
            },
        },
        ScanActionView::ListBranches { args } => ScanInput::BranchesListed {
            run: ProcessRun::Exited {
                success: true,
                stdout: (disk.branches)(args),
                stderr: (disk.branches)(args),
            },
        },
        ScanActionView::ReadDirectory { directory } => ScanInput::DirectoryRead {
            entries: (disk.entries)(directory),
            failure: None,
        },
        _ => ScanInput::DirectoryNotRead,
    }
}

/// A scan after a number of steps, each answered by a disk.
pub open spec fn scan_run(
    style: PathStyle,
    disk: Disk,
    excluded: Seq<Seq<char>>,
    step: (ScanView, ScanActionView),
    n: nat,
) -> (ScanView, ScanActionView)
    decreases n,
{
    if n == 0 {
        step
    } else {
        scan_run(
            style,
            disk,
            excluded,
            next_scan_step(style, excluded, step.0, answer(disk, step.1)),
            (n - 1) as nat,
        )
    }
}

/// The repositories found so far and the one that stands in a directory, if there is a new one.
pub open spec fn with_found(
    style: PathStyle,
    disk: Disk,
    directory: Seq<char>,
    found: Seq<DeviceRepositoryView>,
) -> Seq<DeviceRepositoryView> {
    if (disk.present)(git_path(style, directory)) {
        match repository_name(style, directory) {
            Some(name) => if repository_names(found).contains(name) {
                found
            } else {
                found.push(
                    DeviceRepositoryView {
                        name,
                        branches: listed_branches((disk.branches)(branch_args(directory))@),
                    },
                )
            },
            None => found,
        }
    } else {
        found
    }
}

/// The repositories found so far and those in a directory, itself first, then entry by entry.
/// Excluded directories are left out with all that they hold.
pub open spec fn found_at(
    style: PathStyle,
    disk: Disk,
    excluded: Seq<Seq<char>>,
    path: Seq<char>,
    found: Seq<DeviceRepositoryView>,
    depth: nat,
) -> Seq<DeviceRepositoryView>
    decreases depth, 0nat,
{
    if depth == 0 || paths::lies_within_any(style, path, excluded) {
        found
    } else {
        found_in(
            style,
            disk,
            excluded,
            path,
            (disk.entries)(path)@,
            with_found(style, disk, path, found),
            (depth - 1) as nat,
        )
    }
}

/// The repositories found so far and those in the entries of a directory that are entered.
pub open spec fn found_in(
    style: PathStyle,
    disk: Disk,
    excluded: Seq<Seq<char>>,
    directory: Seq<char>,
    entries: Seq<DirectoryEntry>,
    found: Seq<DeviceRepositoryView>,
    depth: nat,
) -> Seq<DeviceRepositoryView>
    decreases depth, entries.len() + 1,
{
    if entries.len() == 0 {
        found
    } else {
        let first = if is_entered(entries[0]) {
            found_at(
                style,
                disk,
                excluded,
                paths::join(style, directory, entries[0].name->0@),
                found,
                depth,
            )
        } else {
            found
        };
        found_in(style, disk, excluded, directory, entries.drop_first(), first, depth)
    }
}

/// The repositories found so far and those in a number of roots.
pub open spec fn found_in_roots(
    style: PathStyle,
    disk: Disk,
    excluded: Seq<Seq<char>>,
    roots: Seq<Seq<char>>,
    found: Seq<DeviceRepositoryView>,
    depth: nat,
) -> Seq<DeviceRepositoryView>
    decreases roots.len(),
{
    if roots.len() == 0 {
        found
    } else {
        found_in_roots(
            style,
            disk,
            excluded,
            roots.drop_first(),
            found_at(style, disk, excluded, roots[0], found, depth),
            depth,
        )
    }
}

/// A directory that goes no deeper than a number of levels, as far as it is entered.
pub open spec fn fits(
    style: PathStyle,
    disk: Disk,
    excluded: Seq<Seq<char>>,
    path: Seq<char>,
    depth: nat,
) -> bool
    decreases depth,
{
    paths::lies_within_any(style, path, excluded) || (depth > 0 && forall|i: int|
        0 <= i < (disk.entries)(path)@.len() && is_entered(#[trigger] (disk.entries)(path)@[i])
            ==> fits(
            style,
            disk,
            excluded,
            paths::join(style, path, (disk.entries)(path)@[i].name->0@),
            (depth - 1) as nat,
        ))
}

/// Steps add up.
proof fn lemma_runs_add_up(
    style: PathStyle,
    disk: Disk,
    excluded: Seq<Seq<char>>,
    step: (ScanView, ScanActionView),
    a: nat,
    b: nat,
)
    ensures
        scan_run(style, disk, excluded, step, a + b) == scan_run(
            style,
            disk,
            excluded,
            scan_run(style, disk, excluded, step, a),
            b,
        ),
    decreases a,
{
    if a > 0 {
        lemma_runs_add_up(
            style,
            disk,
            excluded,
            next_scan_step(style, excluded, step.0, answer(disk, step.1)),
            (a - 1) as nat,
            b,
        );
    }
}

/// A directory is scanned completely before what was pending is taken up again.
proof fn lemma_directories_are_scanned(
    style: PathStyle,
    disk: Disk,
    excluded: Seq<Seq<char>>,
    pending: Seq<PendingView>,
    path: Seq<char>,
    found: Seq<DeviceRepositoryView>,
    depth: nat,
) -> (n: nat)
    requires
        fits(style, disk, excluded, path, depth),
    ensures
        scan_run(
            style,
            disk,
            excluded,
            next_visit(style, excluded, pending.push(PendingView::Directory { path }), found),
            n,
        ) == next_visit(
            style,
            excluded,
            pending,
            found_at(style, disk, excluded, path, found, depth),
        ),
    decreases depth, 0nat,
{
    let stack = pending.push(PendingView::Directory { path });
    assert(stack.drop_last() =~= pending);
    assert(stack.last() == PendingView::Directory { path });
    let start = next_visit(style, excluded, stack, found);
    if paths::lies_within_any(style, path, excluded) {
        assert(start == next_visit(style, excluded, pending, found));
        0
    } else {
        let here = with_found(style, disk, path, found);
        let entries = (disk.entries)(path)@;
        assert(start.0.phase == ScanPhaseView::Checking { directory: path });
        let second = next_scan_step(style, excluded, start.0, answer(disk, start.1));
        let reading = reading_step(pending, here, path);
        let steps: nat = if second.0.phase is Listing {
            2
        } else {
            1
        };
        reveal_with_fuel(scan_run, 4);
        assert(scan_run(style, disk, excluded, start, steps) == reading);
        let after = next_scan_step(style, excluded, reading.0, answer(disk, reading.1));
        let rest = pending + stacked_entries(style, path, entries);
        assert(after_reading(style, pending, path, entries, None) =~= rest);
        assert(after == next_visit(style, excluded, rest, here));
        assert(scan_run(style, disk, excluded, reading, 1) == after);
        lemma_runs_add_up(style, disk, excluded, start, steps, 1);
        let n = lemma_entries_are_scanned(
            style,
            disk,
            excluded,
            pending,
            path,
            entries,
            here,
            (depth - 1) as nat,
        );
        lemma_runs_add_up(style, disk, excluded, start, steps + 1, n);
        steps + 1 + n
    }
}

/// The entries of a directory are scanned one after another.
proof fn lemma_entries_are_scanned(
    style: PathStyle,
    disk: Disk,
    excluded: Seq<Seq<char>>,
    pending: Seq<PendingView>,
    directory: Seq<char>,
    entries: Seq<DirectoryEntry>,
    found: Seq<DeviceRepositoryView>,
    depth: nat,
) -> (n: nat)
    requires
        forall|i: int|
            0 <= i < entries.len() && is_entered(#[trigger] entries[i]) ==> fits(
                style,
                disk,
                excluded,
                paths::join(style, directory, entries[i].name->0@),
                depth,
            ),
    ensures
        scan_run(
            style,
            disk,
            excluded,
            next_visit(
                style,
                excluded,
                pending + stacked_entries(style, directory, entries),
                found,
            ),
            n,
        ) == next_visit(
            style,
            excluded,
            pending,
            found_in(style, disk, excluded, directory, entries, found, depth),
        ),
    decreases depth, entries.len() + 1,
{
    if entries.len() == 0 {
        assert(pending + stacked_entries(style, directory, entries) =~= pending);
        0
    } else {
        let later = entries.drop_first();
        let below = pending + stacked_entries(style, directory, later);
        assert forall|i: int| 0 <= i < later.len() && is_entered(#[trigger] later[i]) implies fits(
            style,
            disk,
            excluded,
            paths::join(style, directory, later[i].name->0@),
            depth,
        ) by {
            assert(later[i] == entries[i + 1]);
        }
        if is_entered(entries[0]) {
            let child = paths::join(style, directory, entries[0].name->0@);
            assert(pending + stacked_entries(style, directory, entries) =~= below.push(
                PendingView::Directory { path: child },
            ));
            let a = lemma_directories_are_scanned(
                style,
                disk,
                excluded,
                below,
                child,
                found,
                depth,
            );
            let first = found_at(style, disk, excluded, child, found, depth);
            let b = lemma_entries_are_scanned(
                style,
                disk,
                excluded,
                pending,
                directory,
                later,
                first,
                depth,
            );
            lemma_runs_add_up(
                style,
                disk,
                excluded,
                next_visit(
                    style,
                    excluded,
                    pending + stacked_entries(style, directory, entries),
                    found,
                ),
                a,
                b,
            );
            a + b
        } else {
            lemma_entries_are_scanned(
                style,
                disk,
                excluded,
                pending,
                directory,
                later,
                found,
                depth,
            )
        }
    }
}

/// Roots are scanned one after another.
proof fn lemma_roots_are_scanned(
    style: PathStyle,
    disk: Disk,
    excluded: Seq<Seq<char>>,
    roots: Seq<Seq<char>>,
    found: Seq<DeviceRepositoryView>,
    depth: nat,
) -> (n: nat)
    requires
        forall|i: int| 0 <= i < roots.len() ==> fits(
            style,
            disk,
            excluded,
            #[trigger] roots[i],
            depth,
        ),
    ensures
        scan_run(style, disk, excluded, next_visit(style, excluded, stacked_roots(roots), found), n)
            == next_visit(
            style,
            excluded,
            Seq::empty(),
            found_in_roots(style, disk, excluded, roots, found, depth),
        ),
    decreases roots.len(),
{
    if roots.len() == 0 {
        assert(stacked_roots(roots) =~= Seq::<PendingView>::empty());
        0
    } else {
        let later = roots.drop_first();
        assert forall|i: int| 0 <= i < later.len() implies fits(
            style,
            disk,
            excluded,
            #[trigger] later[i],
            depth,
        ) by {
            assert(later[i] == roots[i + 1]);
        }
        let a = lemma_directories_are_scanned(
            style,
            disk,
            excluded,
            stacked_roots(later),
            roots[0],
            found,
            depth,
        );
        let b = lemma_roots_are_scanned(
            style,
            disk,
            excluded,
            later,
            found_at(style, disk, excluded, roots[0], found, depth),
            depth,
        );
        lemma_runs_add_up(
            style,
            disk,
            excluded,
            next_visit(style, excluded, stacked_roots(roots), found),
            a,
            b,
        );
        a + b
    }
}

/// A scan over roots of finite depth comes to its end, and has then found exactly the repositories
/// that stand in them outside the excluded and the skipped directories: a directory before its
/// entries, entries in their order, and of repositories with the same name the first.
pub proof fn scans_find_every_repository(
    style: PathStyle,
    disk: Disk,
    excluded: Seq<Seq<char>>,
    roots: Seq<Seq<char>>,
    depth: nat,
) -> (n: nat)
    requires
        forall|i: int| 0 <= i < roots.len() ==> fits(
            style,
            disk,
            excluded,
            #[trigger] roots[i],
            depth,
        ),
    ensures
        scan_run(
            style,
            disk,
            excluded,
            next_visit(style, excluded, stacked_roots(roots), Seq::empty()),
            n,
        ) == (
            ScanView {
                pending: Seq::empty(),
                found: found_in_roots(style, disk, excluded, roots, Seq::empty(), depth),
                phase: ScanPhaseView::Ended,
            },
            ScanActionView::Finish,
        ),
{
    lemma_roots_are_scanned(style, disk, excluded, roots, Seq::empty(), depth)
}

/// A search after a number of steps, each answered by a disk.
pub open spec fn search_run(
    style: PathStyle,
    disk: Disk,
    excluded: Seq<Seq<char>>,
    repo_name: Seq<char>,
    step: (ScanView, ScanActionView),
    n: nat,
) -> (ScanView, ScanActionView)
    decreases n,
{
    if n == 0 {
        step
    } else {
        search_run(
            style,
            disk,
            excluded,
            repo_name,
            next_search_step(style, excluded, repo_name, step.0, answer(disk, step.1)),
            (n - 1) as nat,
        )
    }
}

/// The first repository of a name in a directory, itself first, then entry by entry. Excluded
/// directories are left out with all that they hold.
pub open spec fn first_at(
    style: PathStyle,
    disk: Disk,
    excluded: Seq<Seq<char>>,
    repo_name: Seq<char>,
    path: Seq<char>,
    depth: nat,
) -> Option<Seq<char>>
    decreases depth, 0nat,
{
    if depth == 0 || paths::lies_within_any(style, path, excluded) {
        None
    } else if (disk.present)(git_path(style, path)) && bears_name(style, path, repo_name) {
        Some(path)
    } else {
        first_in(style, disk, excluded, repo_name, path, (disk.entries)(path)@, (depth - 1) as nat)
    }
}

/// The first repository of a name in the entries of a directory that are entered.
pub open spec fn first_in(
    style: PathStyle,
    disk: Disk,
    excluded: Seq<Seq<char>>,
    repo_name: Seq<char>,
    directory: Seq<char>,
    entries: Seq<DirectoryEntry>,
    depth: nat,
) -> Option<Seq<char>>
    decreases depth, entries.len() + 1,
{
    if entries.len() == 0 {
        None
    } else {
        let first = if is_entered(entries[0]) {
            first_at(
                style,
                disk,
                excluded,
                repo_name,
                paths::join(style, directory, entries[0].name->0@),
                depth,
            )
        } else {
            None
        };
        match first {
            Some(path) => Some(path),
            None => first_in(
                style,
                disk,
                excluded,
                repo_name,
                directory,
                entries.drop_first(),
                depth,
            ),
        }
    }
}

/// The first repository of a name in a number of roots.
pub open spec fn first_in_roots(
    style: PathStyle,
    disk: Disk,
    excluded: Seq<Seq<char>>,
    repo_name: Seq<char>,
    roots: Seq<Seq<char>>,
    depth: nat,
) -> Option<Seq<char>>
    decreases roots.len(),
{
    if roots.len() == 0 {
        None
    } else {
        match first_at(style, disk, excluded, repo_name, roots[0], depth) {
            Some(path) => Some(path),
            None => first_in_roots(style, disk, excluded, repo_name, roots.drop_first(), depth),
        }
    }
}

/// What a search has come to: it has found the repository, or goes on with what is pending.
pub open spec fn search_has_come_to(
    style: PathStyle,
    excluded: Seq<Seq<char>>,
    pending: Seq<PendingView>,
    first: Option<Seq<char>>,
    step: (ScanView, ScanActionView),
) -> bool {
    match first {
        Some(directory) => step.1 == ScanActionView::Found { directory },
        None => step == next_visit(style, excluded, pending, Seq::empty()),
    }
}

/// Steps add up.
proof fn lemma_searches_add_up(
    style: PathStyle,
    disk: Disk,
    excluded: Seq<Seq<char>>,
    repo_name: Seq<char>,
    step: (ScanView, ScanActionView),
    a: nat,
    b: nat,
)
    ensures
        search_run(style, disk, excluded, repo_name, step, a + b) == search_run(
            style,
            disk,
            excluded,
            repo_name,
            search_run(style, disk, excluded, repo_name, step, a),
            b,
        ),
    decreases a,
{
    if a > 0 {
        lemma_searches_add_up(
            style,
            disk,
            excluded,
            repo_name,
            next_search_step(style, excluded, repo_name, step.0, answer(disk, step.1)),
            (a - 1) as nat,
            b,
        );
    }
}

/// A directory is searched completely before what was pending is taken up again.
proof fn lemma_directories_are_searched(
    style: PathStyle,
    disk: Disk,
    excluded: Seq<Seq<char>>,
    repo_name: Seq<char>,
    pending: Seq<PendingView>,
    path: Seq<char>,
    depth: nat,
) -> (n: nat)
    requires
        fits(style, disk, excluded, path, depth),
    ensures
        search_has_come_to(
            style,
            excluded,
            pending,
            first_at(style, disk, excluded, repo_name, path, depth),
            search_run(
                style,
                disk,
                excluded,
                repo_name,
                next_visit(
                    style,
                    excluded,
                    pending.push(PendingView::Directory { path }),
                    Seq::empty(),
                ),
                n,
            ),
        ),
    decreases depth, 0nat,
{
    let stack = pending.push(PendingView::Directory { path });
    assert(stack.drop_last() =~= pending);
    assert(stack.last() == PendingView::Directory { path });
    let start = next_visit(style, excluded, stack, Seq::empty());
    reveal_with_fuel(search_run, 2);
    if paths::lies_within_any(style, path, excluded) {
        0
    } else if (disk.present)(git_path(style, path)) && bears_name(style, path, repo_name) {
        1
    } else {
        let entries = (disk.entries)(path)@;
        let reading = reading_step(pending, Seq::empty(), path);
        assert(search_run(style, disk, excluded, repo_name, start, 1) == reading);
        let rest = pending + stacked_entries(style, path, entries);
        assert(after_reading(style, pending, path, entries, None) =~= rest);
        let after = next_visit(style, excluded, rest, Seq::empty());
        assert(search_run(style, disk, excluded, repo_name, reading, 1) == after);
        lemma_searches_add_up(style, disk, excluded, repo_name, start, 1, 1);
        let n = lemma_entries_are_searched(
            style,
            disk,
            excluded,
            repo_name,
            pending,
            path,
            entries,
            (depth - 1) as nat,
        );
        lemma_searches_add_up(style, disk, excluded, repo_name, start, 2, n);
        2 + n
    }
}

/// The entries of a directory are searched one after another.
proof fn lemma_entries_are_searched(
    style: PathStyle,
    disk: Disk,
    excluded: Seq<Seq<char>>,
    repo_name: Seq<char>,
    pending: Seq<PendingView>,
    directory: Seq<char>,
    entries: Seq<DirectoryEntry>,
    depth: nat,
) -> (n: nat)
    requires
        forall|i: int|
            0 <= i < entries.len() && is_entered(#[trigger] entries[i]) ==> fits(
                style,
                disk,
                excluded,
                paths::join(style, directory, entries[i].name->0@),
                depth,
            ),
    ensures
        search_has_come_to(
            style,
            excluded,
            pending,
            first_in(style, disk, excluded, repo_name, directory, entries, depth),
            search_run(
                style,
                disk,
                excluded,
                repo_name,
                next_visit(
                    style,
                    excluded,
                    pending + stacked_entries(style, directory, entries),
                    Seq::empty(),
                ),
                n,
            ),
        ),
    decreases depth, entries.len() + 1,
{
    let start = next_visit(
        style,
        excluded,
        pending + stacked_entries(style, directory, entries),
        Seq::empty(),
    );
    if entries.len() == 0 {
        assert(pending + stacked_entries(style, directory, entries) =~= pending);
        0
    } else {
        let later = entries.drop_first();
        let below = pending + stacked_entries(style, directory, later);
        assert forall|i: int| 0 <= i < later.len() && is_entered(#[trigger] later[i]) implies fits(
            style,
            disk,
            excluded,
            paths::join(style, directory, later[i].name->0@),
            depth,
        ) by {
            assert(later[i] == entries[i + 1]);
        }
        if is_entered(entries[0]) {
            let child = paths::join(style, directory, entries[0].name->0@);
            assert(pending + stacked_entries(style, directory, entries) =~= below.push(
                PendingView::Directory { path: child },
            ));
            let a = lemma_directories_are_searched(
                style,
                disk,
                excluded,
                repo_name,
                below,
                child,
                depth,
            );
            if first_at(style, disk, excluded, repo_name, child, depth) is Some {
                a
            } else {
                let b = lemma_entries_are_searched(
                    style,
                    disk,
                    excluded,
                    repo_name,
                    pending,
                    directory,
                    later,
                    depth,
                );
                lemma_searches_add_up(style, disk, excluded, repo_name, start, a, b);
                a + b
            }
        } else {
            lemma_entries_are_searched(
                style,
                disk,
                excluded,
                repo_name,
                pending,
                directory,
                later,
                depth,
            )
        }
    }
}

/// A search over roots of finite depth comes to its end. It has then found the first repository of
/// the name that stands in them outside the excluded and the skipped directories, in the order in
/// which a scan visits them, or there is none.
pub proof fn searches_find_the_first(
    style: PathStyle,
    disk: Disk,
    excluded: Seq<Seq<char>>,
    repo_name: Seq<char>,
    roots: Seq<Seq<char>>,
    depth: nat,
) -> (n: nat)
    requires
        forall|i: int| 0 <= i < roots.len() ==> fits(
            style,
            disk,
            excluded,
            #[trigger] roots[i],
            depth,
        ),
    ensures
        search_run(
            style,
            disk,
            excluded,
            repo_name,
            next_visit(style, excluded, stacked_roots(roots), Seq::empty()),
            n,
        ).1 == match first_in_roots(style, disk, excluded, repo_name, roots, depth) {
            Some(directory) => ScanActionView::Found { directory },
            None => ScanActionView::Finish,
        },
    decreases roots.len(),
{
    let start = next_visit(style, excluded, stacked_roots(roots), Seq::empty());
    if roots.len() == 0 {
        0
    } else {
        let later = roots.drop_first();
        assert forall|i: int| 0 <= i < later.len() implies fits(
            style,
            disk,
            excluded,
            #[trigger] later[i],
            depth,
        ) by {
            assert(later[i] == roots[i + 1]);
        }
        let a = lemma_directories_are_searched(
            style,
            disk,
            excluded,
            repo_name,
            stacked_roots(later),
            roots[0],
            depth,
        );
        if first_at(style, disk, excluded, repo_name, roots[0], depth) is Some {
            a
        } else {
            let b = searches_find_the_first(style, disk, excluded, repo_name, later, depth);
            lemma_searches_add_up(style, disk, excluded, repo_name, start, a, b);
            a + b
        }
    }
}

/// A device is known by the name of its computer, else by that of its host: in lower case, with
/// hyphens for blanks, and otherwise letter for letter. Without either it has a name of its own.
pub proof fn devices_are_known_by_their_computer(
    computer_name: Option<Seq<char>>,
    host_name: Option<Seq<char>>,
    device_id: Seq<char>,
)
    ensures
        ({
            let id = detected_id(computer_name, host_name);
            let named = computer_name is Some || host_name is Some;
            let name = if computer_name is Some {
                computer_name->0
            } else {
                host_name->0
            };
            let trimmed = text::trim(name);
            &&& named && trimmed.len() > 0 ==> {
                &&& id.len() == trimmed.len()
                &&& forall|i: int|
                    0 <= i < trimmed.len() ==> {
                        &&& #[trigger] trimmed[i] == ' ' ==> id[i] == '-'
                        &&& trimmed[i] != ' ' ==> id[i] == text::ascii_lower(trimmed[i])
                    }
            }
            &&& !named || trimmed.len() == 0 ==> id == "elowen-edge"@
            &&& named ==> detected_name(computer_name, host_name, device_id) == name
            &&& !named ==> detected_name(computer_name, host_name, device_id) == device_id
        }),
{
}

/// A directory is entered exactly where it is one, is no link, and bears a readable name that is not
/// one of those that are skipped.
pub proof fn directories_are_entered_by_name(entry: DirectoryEntry)
    ensures
        is_entered(entry) <==> entry.is_dir && !entry.is_symlink && entry.name is Some && !seq![
            ".git"@,
            ".elowen"@,
            "node_modules"@,
            "target"@,
            "dist"@,
            "build"@,
            ".next"@,
        ].contains(entry.name->0@),
{
    let skipped = seq![
        ".git"@,
        ".elowen"@,
        "node_modules"@,
        "target"@,
        "dist"@,
        "build"@,
        ".next"@,
    ];
    assert(skipped[0] == ".git"@ && skipped[1] == ".elowen"@ && skipped[2] == "node_modules"@);
    assert(skipped[3] == "target"@ && skipped[4] == "dist"@ && skipped[5] == "build"@);
    assert(skipped[6] == ".next"@);
}

/// The main branch is listed first, then the master branch, and the others by name.
pub proof fn main_branches_come_first(a: Seq<char>, b: Seq<char>)
    ensures
        b != "main"@ ==> branch_before("main"@, b),
        b != "main"@ && b != "master"@ ==> branch_before("master"@, b),
        a != "main"@ && a != "master"@ && b != "main"@ && b != "master"@ ==> (branch_before(a, b)
            <==> text::precedes(a, b)),
{
    reveal_strlit("main");
    reveal_strlit("master");
    assert("main"@.len() == 4 && "master"@.len() == 6);
}

/// A line feed parts the bytes before it from those behind it, and without one there is one line.
pub proof fn line_feeds_part_bytes(a: Seq<u8>, b: Seq<u8>)
    ensures
        !a.contains(10) ==> byte_lines(a) == seq![a],
        byte_lines(a + seq![10u8] + b) == byte_lines(a) + byte_lines(b),
        byte_lines(b).len() >= 1,
    decreases a.len() + b.len(),
{
    if a.len() > 0 {
        let start = a.drop_last();
        line_feeds_part_bytes(start, Seq::empty());
        if !a.contains(10) {
            assert forall|i: int| 0 <= i < start.len() implies start[i] != 10 by {
                assert(a[i] != 10);
            }
            assert(a[a.len() - 1] != 10);
            assert(byte_lines(start) == seq![start]);
            assert(start.push(a.last()) =~= a);
            assert(byte_lines(a) =~= seq![a]);
        }
    } else {
        assert(a =~= Seq::empty());
    }
    let whole = a + seq![10u8] + b;
    if b.len() == 0 {
        assert(whole.drop_last() =~= a);
        assert(whole.last() == 10);
        assert(b =~= Seq::empty());
        assert(byte_lines(whole) =~= byte_lines(a) + byte_lines(b));
    } else {
        let start = b.drop_last();
        line_feeds_part_bytes(a, start);
        assert(whole.drop_last() =~= a + seq![10u8] + start);
        assert(whole.last() == b.last());
        assert(byte_lines(whole) =~= byte_lines(a) + byte_lines(b));
    }
}

/// Every line that is text is kept, in order, and every other is dropped.
pub proof fn readable_lines_are_kept(pieces: Seq<Seq<u8>>, piece: Seq<u8>)
    ensures
        valid_texts(Seq::empty()).len() == 0,
        vstd::utf8::valid_utf8(piece) ==> valid_texts(pieces.push(piece)) == valid_texts(
            pieces,
        ).push(vstd::utf8::decode_utf8(piece)),
        !vstd::utf8::valid_utf8(piece) ==> valid_texts(pieces.push(piece)) == valid_texts(pieces),
{
    assert(pieces.push(piece).drop_last() =~= pieces);
    assert(pieces.push(piece).last() == piece);
}

/// The branches of a repository are all that were printed, each once, in order.
pub proof fn every_branch_is_listed(stdout: Seq<u8>)
    ensures
        listed_branches(stdout).to_multiset() == config::unique_entries(
            valid_texts(byte_lines(stdout)),
        ).to_multiset(),
        forall|i: int, j: int|
            0 <= i < j < listed_branches(stdout).len() ==> !branch_before(
                #[trigger] listed_branches(stdout)[j],
                #[trigger] listed_branches(stdout)[i],
            ),
{
    branches_are_listed_in_order(config::unique_entries(valid_texts(byte_lines(stdout))));
}

/// Branches are asked of `git` in the directory of the repository. They are known exactly where it
/// reported success; a failure names the directory, and what was said about it.
pub proof fn branches_are_asked_of_the_directory(directory: Seq<char>, run: ProcessRun)
    ensures
        branch_args(directory).len() == 5,
        branch_args(directory)[0] == "-C"@ && branch_args(directory)[1] == directory,
        branch_args(directory)[2] == "for-each-ref"@,
        branch_args(directory)[3] == "--format=%(refname:short)"@,
        branch_args(directory)[4] == "refs/heads"@,
        branches_result(directory, run) is Ok <==> run is Exited && run->success,
        branches_result(directory, run) matches Ok(branches) ==> branches == listed_branches(
            run->stdout@,
        ),
        branches_result(directory, run) matches Err(message) ==> {
            &&& text::contains_text(message, directory)
            &&& run is Exited ==> text::trim(encoding::lossy_text(run->stderr@)).is_suffix_of(
                message,
            )
        },
{
    text::parts_begin_and_end("failed to list branches for "@, directory);
    if let ProcessRun::Exited { success, stdout, stderr } = run {
        let said = text::trim(encoding::lossy_text(stderr@));
        let head = "git branch discovery failed for "@ + directory + ": "@;
        text::parts_are_contained("git branch discovery failed for "@, directory, ": "@);
        text::containing_grows(head, said);
        text::parts_begin_and_end(head, said);
    }
}

/// The next place that is looked at is the one that was put down last, unless it is excluded. A
/// failure that was met on the way breaks the scan off when its turn comes, and an end is an end.
pub proof fn places_are_visited_last_first(
    style: PathStyle,
    excluded: Seq<Seq<char>>,
    pending: Seq<PendingView>,
    found: Seq<DeviceRepositoryView>,
    path: Seq<char>,
    error: Seq<char>,
)
    ensures
        next_visit(style, excluded, Seq::empty(), found) == (
            (ScanView { pending: Seq::empty(), found, phase: ScanPhaseView::Ended }),
            ScanActionView::Finish,
        ),
        next_visit(style, excluded, pending.push(PendingView::Failure { error }), found) == (
            (ScanView { pending, found, phase: ScanPhaseView::Ended }),
            (ScanActionView::BreakOff { error }),
        ),
        paths::lies_within_any(style, path, excluded) ==> next_visit(
            style,
            excluded,
            pending.push(PendingView::Directory { path }),
            found,
        ) == next_visit(style, excluded, pending, found),
        !paths::lies_within_any(style, path, excluded) ==> next_visit(
            style,
            excluded,
            pending.push(PendingView::Directory { path }),
            found,
        ) == (
            (ScanView { pending, found, phase: ScanPhaseView::Checking { directory: path } }),
            (ScanActionView::CheckGit { path: paths::join(style, path, ".git"@) }),
        ),
{
    assert(pending.push(PendingView::Directory { path }).drop_last() =~= pending);
    assert(pending.push(PendingView::Failure { error }).drop_last() =~= pending);
}

/// The first root is visited first, and the others wait behind it in their order.
pub proof fn roots_are_visited_in_order(roots: Seq<Seq<char>>)
    ensures
        stacked_roots(roots).len() == roots.len(),
        forall|i: int|
            0 <= i < roots.len() ==> stacked_roots(roots)[roots.len() - 1 - i] == (
            PendingView::Directory { path: #[trigger] roots[i] }),
    decreases roots.len(),
{
    if roots.len() > 0 {
        let rest = roots.drop_first();
        roots_are_visited_in_order(rest);
        assert forall|i: int| 0 <= i < roots.len() implies stacked_roots(roots)[roots.len() - 1 - i]
            == (PendingView::Directory { path: #[trigger] roots[i] }) by {
            if i > 0 {
                assert(rest[i - 1] == roots[i]);
                assert(stacked_roots(rest)[rest.len() - 1 - (i - 1)] == (PendingView::Directory {
                    path: rest[i - 1],
                }));
            }
        }
    }
}

/// Every entry that is to be entered waits below its directory, the first on top; an entry that could
/// not be read waits below them all, and breaks the scan off under its name.
pub proof fn entries_wait_in_order(
    style: PathStyle,
    pending: Seq<PendingView>,
    directory: Seq<char>,
    entry: DirectoryEntry,
    later: Seq<DirectoryEntry>,
    failure: Option<EntryFailure>,
)
    ensures
        ({
            let waiting = after_reading(style, pending, directory, later, failure);
            &&& after_reading(style, pending, directory, seq![entry] + later, failure)
                == if is_entered(entry) {
                waiting.push(
                    PendingView::Directory { path: paths::join(style, directory, entry.name->0@) },
                )
            } else {
                waiting
            }
            &&& after_reading(style, pending, directory, Seq::empty(), None) == pending
            &&& failure matches Some(met) ==> {
                let reported = after_reading(style, pending, directory, Seq::empty(), failure);
                &&& reported.len() == pending.len() + 1
                &&& reported.take(pending.len() as int) == pending
                &&& reported.last() matches PendingView::Failure { error }
                &&& match met {
                    EntryFailure::Entry => directory.is_suffix_of(error),
                    EntryFailure::Kind { path } => path@.is_suffix_of(error),
                }
            }
        }),
{
    let all = seq![entry] + later;
    assert(all.drop_first() =~= later);
    assert(all[0] == entry);
    let waiting = after_reading(style, pending, directory, later, failure);
    let whole = after_reading(style, pending, directory, all, failure);
    if is_entered(entry) {
        assert(whole =~= waiting.push(
            PendingView::Directory { path: paths::join(style, directory, entry.name->0@) },
        ));
    } else {
        assert(whole =~= waiting);
    }
    assert(after_reading(style, pending, directory, Seq::empty(), None) =~= pending);
    if let Some(met) = failure {
        let reported = after_reading(style, pending, directory, Seq::empty(), failure);
        assert(reported =~= pending + stacked_failure(directory, failure));
        assert(reported.take(pending.len() as int) =~= pending);
        text::parts_begin_and_end("failed to inspect "@, directory);
        if let EntryFailure::Kind { path } = met {
            text::parts_begin_and_end("failed to read file type for "@, path@);
        }
    }
}

/// A repository bears the name of its directory, trimmed, unless that is blank.
pub proof fn repositories_bear_the_name_of_their_directory(
    style: PathStyle,
    directory: Seq<char>,
    repo_name: Seq<char>,
)
    ensures
        repository_name(style, directory) is Some <==> paths::file_name(style, directory) is Some
            && text::trim(paths::file_name(style, directory)->0).len() > 0,
        repository_name(style, directory) matches Some(name) ==> name == text::trim(
            paths::file_name(style, directory)->0,
        ),
        bears_name(style, directory, repo_name) <==> paths::file_name(style, directory) is Some
            && text::trim(paths::file_name(style, directory)->0) == repo_name,
        repository_name(style, directory) == Some(repo_name) ==> bears_name(
            style,
            directory,
            repo_name,
        ),
{
}

/// A directory that was looked at is a repository or not: a new repository is asked for its branches,
/// and is then found with them; in every case the directory is read next. What cannot be looked at,
/// listed or read breaks the scan off under its name, and nothing that was found is lost.
pub proof fn scans_go_on_step_by_step(
    style: PathStyle,
    excluded: Seq<Seq<char>>,
    scan: ScanView,
    input: ScanInput,
)
    ensures
        ({
            let (next, action) = next_scan_step(style, excluded, scan, input);
            &&& scan.phase matches ScanPhaseView::Checking { directory } ==> match input {
                ScanInput::GitChecked { fact } => {
                    let name = repository_name(style, directory);
                    let is_new = fact is Present && name is Some && !repository_names(
                        scan.found,
                    ).contains(name->0);
                    &&& next.found == scan.found && next.pending == scan.pending
                    &&& fact is Failed ==> action is BreakOff && paths::join(
                        style,
                        directory,
                        ".git"@,
                    ).is_suffix_of(action->BreakOff_error)
                    &&& is_new ==> next.phase == (ScanPhaseView::Listing {
                        directory,
                        name: name->0,
                    }) && action == (ScanActionView::ListBranches { args: branch_args(directory) })
                    &&& !is_new && !(fact is Failed) ==> next.phase == (ScanPhaseView::Reading {
                        directory,
                    }) && action == (ScanActionView::ReadDirectory { directory })
                },
                _ => next == scan && action is Wait,
            }
            &&& scan.phase matches ScanPhaseView::Listing { directory, name } ==> match input {
                ScanInput::BranchesListed { run } => {
                    &&& next.pending == scan.pending
                    &&& run is Exited && run->success ==> {
                        &&& next.found.len() == scan.found.len() + 1
                        &&& next.found.take(scan.found.len() as int) == scan.found
                        &&& next.found.last().name == name
                        &&& next.found.last().branches == listed_branches(run->stdout@)
                        &&& action == (ScanActionView::ReadDirectory { directory })
                        &&& next.phase == (ScanPhaseView::Reading { directory })
                    }
                    &&& !(run is Exited && run->success) ==> next.found == scan.found
                        && action is BreakOff && text::contains_text(
                        action->BreakOff_error,
                        directory,
                    )
                },
                _ => next == scan && action is Wait,
            }
            &&& scan.phase matches ScanPhaseView::Reading { directory } ==> match input {
                ScanInput::DirectoryRead { entries, failure } => (next, action) == next_visit(
                    style,
                    excluded,
                    after_reading(style, scan.pending, directory, entries@, failure),
                    scan.found,
                ),
                ScanInput::DirectoryNotRead => next.found == scan.found && action is BreakOff
                    && directory.is_suffix_of(action->BreakOff_error),
                _ => next == scan && action is Wait,
            }
            &&& scan.phase is Ended ==> next == scan && action is Wait
            &&& action is BreakOff && !(input is DirectoryRead) ==> next.phase is Ended
        }),
{
    match scan.phase {
        ScanPhaseView::Checking { directory } => {
            text::parts_begin_and_end("failed to inspect "@, git_path(style, directory));
        },
        ScanPhaseView::Listing { directory, name } => {
            if let ScanInput::BranchesListed { run } = input {
                branches_are_asked_of_the_directory(directory, run);
                let next = next_scan_step(style, excluded, scan, input).0;
                if run is Exited && run->success {
                    assert(next.found.take(scan.found.len() as int) =~= scan.found);
                }
            }
        },
        ScanPhaseView::Reading { directory } => {
            text::parts_begin_and_end("failed to read repository root "@, directory);
        },
        ScanPhaseView::Ended => {},
    }
}

/// A search ends at the first directory that is a repository and bears the name, and reads on below
/// every other.
pub proof fn searches_go_on_step_by_step(
    style: PathStyle,
    excluded: Seq<Seq<char>>,
    repo_name: Seq<char>,
    scan: ScanView,
    input: ScanInput,
)
    ensures
        ({
            let (next, action) = next_search_step(style, excluded, repo_name, scan, input);
            &&& scan.phase matches ScanPhaseView::Checking { directory } ==> match input {
                ScanInput::GitChecked { fact } => {
                    let there = fact is Present && bears_name(style, directory, repo_name);
                    &&& fact is Failed ==> action is BreakOff && next.phase is Ended
                    &&& there ==> action == (ScanActionView::Found { directory })
                        && next.phase is Ended
                    &&& !there && !(fact is Failed) ==> action == (ScanActionView::ReadDirectory {
                        directory,
                    }) && next.phase == (ScanPhaseView::Reading { directory }) && next.pending
                        == scan.pending
                },
                _ => next == scan && action is Wait,
            }
            &&& scan.phase is Reading ==> (next, action) == next_scan_step(
                style,
                excluded,
                scan,
                input,
            )
            &&& scan.phase is Ended ==> next == scan && action is Wait
        }),
{
}

/// A repository that stands at a path that is visited is found, under its name and with its branches,
/// and what had been found before stays found.
pub proof fn repositories_are_found_where_they_stand(
    style: PathStyle,
    disk: Disk,
    directory: Seq<char>,
    found: Seq<DeviceRepositoryView>,
)
    ensures
        ({
            let after = with_found(style, disk, directory, found);
            let name = repository_name(style, directory);
            &&& found.len() <= after.len() <= found.len() + 1
            &&& after.take(found.len() as int) == found
            &&& (disk.present)(paths::join(style, directory, ".git"@)) && name is Some ==> {
                &&& repository_names(after).contains(name->0)
                &&& !repository_names(found).contains(name->0) ==> after.last() == (
                DeviceRepositoryView {
                    name: name->0,
                    branches: listed_branches((disk.branches)(branch_args(directory))@),
                })
            }
            &&& !(disk.present)(paths::join(style, directory, ".git"@)) ==> after == found
        }),
{
    let after = with_found(style, disk, directory, found);
    assert(after.take(found.len() as int) =~= found);
    if let Some(name) = repository_name(style, directory) {
        if after.len() > found.len() {
            assert(repository_names(after)[found.len() as int] == name);
        }
    }
}

/// A search begins at the workspace root, then goes through every other root, none of them twice.
pub proof fn searches_begin_at_the_workspace(
    style: PathStyle,
    workspace_root: Seq<char>,
    roots: Seq<Seq<char>>,
)
    ensures
        search_roots(style, workspace_root, roots).len() >= 1,
        search_roots(style, workspace_root, roots)[0] == workspace_root,
        forall|i: int|
            0 <= i < roots.len() ==> config::lists_path(
                style,
                search_roots(style, workspace_root, roots),
                #[trigger] roots[i],
            ) || search_roots(style, workspace_root, roots).contains(roots[i]),
        search_roots(style, workspace_root, roots).len() <= roots.len() + 1,
    decreases roots.len(),
{
    if roots.len() > 0 {
        let shorter = roots.drop_last();
        let before = search_roots(style, workspace_root, shorter);
        let all = search_roots(style, workspace_root, roots);
        searches_begin_at_the_workspace(style, workspace_root, shorter);
        assert forall|i: int| 0 <= i < roots.len() implies config::lists_path(
            style,
            all,
            #[trigger] roots[i],
        ) || all.contains(roots[i]) by {
            if i < shorter.len() {
                assert(shorter[i] == roots[i]);
                if before.contains(roots[i]) {
                    let at = choose|at: int| 0 <= at < before.len() && before[at] == roots[i];
                    assert(all[at] == roots[i]);
                } else if all.len() > before.len() {
                    lemma_listed_stays_listed(style, before, all.last(), roots[i]);
                }
            } else if all.len() > before.len() {
                assert(all[all.len() - 1] == roots[i]);
            }
        }
    }
}

/// A path that is listed stays listed in a longer list.
proof fn lemma_listed_stays_listed(
    style: PathStyle,
    list: Seq<Seq<char>>,
    more: Seq<char>,
    path: Seq<char>,
)
    requires
        config::lists_path(style, list, path),
    ensures
        config::lists_path(style, list.push(more), path),
{
    let i = choose|i: int| 0 <= i < list.len() && paths::same_path(style, #[trigger] list[i], path);
    assert(paths::same_path(style, list.push(more)[i], path));
}

/// A scan that is broken off says where.
pub proof fn broken_scans_say_where(
    style: PathStyle,
    excluded: Seq<Seq<char>>,
    repo_name: Seq<char>,
    scan: ScanView,
    directory: Seq<char>,
    failure: EntryFailure,
    run: ProcessRun,
)
    ensures
        branches_result(directory, run) matches Err(message) ==> match run {
            ProcessRun::NotRun => message == "failed to list branches for "@ + directory,
            ProcessRun::Exited { success, stdout, stderr } => message
                == "git branch discovery failed for "@ + directory + ": "@ + text::trim(
                encoding::lossy_text(stderr@),
            ),
        },
        stacked_failure(directory, Some(failure)) == seq![
            PendingView::Failure {
                error: match failure {
                    EntryFailure::Entry => "failed to inspect "@ + directory,
                    EntryFailure::Kind { path } => "failed to read file type for "@ + path@,
                },
            },
        ],
        after_directory(style, excluded, scan, directory, ScanInput::DirectoryNotRead).1 == (
        ScanActionView::BreakOff { error: "failed to read repository root "@ + directory }),
        scan.phase == (ScanPhaseView::Checking { directory }) ==> {
            let failed = ScanActionView::BreakOff {
                error: "failed to inspect "@ + paths::join(style, directory, ".git"@),
            };
            let input = ScanInput::GitChecked { fact: GitFact::Failed };
            &&& next_scan_step(style, excluded, scan, input).1 == failed
            &&& next_search_step(style, excluded, repo_name, scan, input).1 == failed
        },
{
}

/// What is shown of a value is what it holds, field by field.
pub proof fn what_is_held_is_shown(
    scan: Scan,
)
    ensures
        scan@.pending == pending_views(scan.pending@),
        scan@.found == repository_views(scan.found@),
        scan@.phase == scan.phase@,
{
}

} // verus!
