//! The installed catalog: which versioned binaries are already present.
//!
//! A binary installed at version `1.2.3` under the name `tool` lives in the
//! managed binary directory as a file called `tool-1.2.3`; a pre-release
//! build sits beside it as e.g. `tool-1.3.0-beta.1`. Scanning that directory
//! is plain I/O and happens outside this library; the caller hands the file
//! names in, and everything from there on is verified: which names count as
//! catalog entries, the ascending order of the catalog, and which entry
//! satisfies a requirement.

use vstd::prelude::*;

use crate::text::eq_str;
use crate::version::{
    SemVer,
    cmp_ver,
    parse_version,
    req_match,
    req_matches_version,
    req_wf,
    sem_parse,
    sem_ver_str,
    sem_ver_to_string,
    ver_eq,
    ver_key,
    ver_le,
    ver_lt,
    witness_lt_trans,
};

verus! {

/// One catalog entry: an installed version and the file it lives in.
#[derive(Debug)]
pub struct InstalledBinary {
    pub version: SemVer,
    pub path: String,
}

impl Clone for InstalledBinary {
    fn clone(&self) -> (r: Self)
        ensures
            r == *self,
    {
        InstalledBinary { version: self.version.clone(), path: self.path.clone() }
    }
}

/// The file name that encodes a binary name and a version:
/// `<binary>-<version>`.
pub open spec fn versioned_name(binary: Seq<char>, v: SemVer) -> Seq<char> {
    binary + seq!['-'] + sem_ver_str(v)
}

/// Whether a directory entry name is a catalog entry of `binary` whose
/// suffix is the semantic version with components `k`.
pub open spec fn entry_parses_to(
    binary: Seq<char>,
    name: Seq<char>,
    k: (u64, u64, u64, Seq<char>, Seq<char>),
) -> bool {
    name.len() > binary.len() + 1 && name.subrange(0, binary.len() as int + 1) == binary
        + seq!['-'] && sem_parse(name.subrange(binary.len() as int + 1, name.len() as int))
        == Some(k)
}

/// A path under a directory: `<dir>/<name>`.
pub open spec fn join_path(dir: Seq<char>, name: Seq<char>) -> Seq<char> {
    dir + seq!['/'] + name
}

/// The catalog invariant: versions strictly ascending by full semver
/// precedence.
pub open spec fn catalog_sorted(s: Seq<InstalledBinary>) -> bool {
    forall|i: int, j: int| 0 <= i < j < s.len() ==> ver_lt(s[i].version, s[j].version)
}

/// Whether a requirement string is well formed and matched by a version.
pub open spec fn req_ok(req: Seq<char>, v: SemVer) -> bool {
    req_wf(req) && req_match(req, v.major, v.minor, v.patch, v.pre@, v.build@)
}

/// Soundness of a catalog: every entry's version is the parse of one of the
/// directory entry names, and its path is that name under the directory.
pub open spec fn catalog_from_entries(
    binary: Seq<char>,
    bin_dir: Seq<char>,
    entries: Seq<String>,
    res: Seq<InstalledBinary>,
) -> bool {
    forall|i: int|
        0 <= i < res.len() ==> exists|j: int|
            0 <= j < entries.len() && entry_parses_to(
                binary,
                #[trigger] entries[j]@,
                ver_key((#[trigger] res[i]).version),
            ) && res[i].path@ == join_path(bin_dir, entries[j]@)
}

/// Completeness of a catalog over the first `upto` directory entries: every
/// name among them whose suffix parses as a semantic version is represented.
pub open spec fn catalog_covers(
    binary: Seq<char>,
    entries: Seq<String>,
    upto: int,
    res: Seq<InstalledBinary>,
) -> bool {
    forall|j: int, k: (u64, u64, u64, Seq<char>, Seq<char>)|
        0 <= j < upto && #[trigger] entry_parses_to(binary, entries[j]@, k) ==> exists|i: int|
            0 <= i < res.len() && ver_key(res[i].version) == k
}

/// The file name of a binary at a version: `<binary>-<version>`.
pub fn versioned_binary_name(binary: &str, version: &SemVer) -> (r: String)
    ensures
        r@ == versioned_name(binary@, *version),
{
    let mut s = binary.to_owned();
    s.append("-");
    let v = sem_ver_to_string(version);
    s.append(v.as_str());
    proof {
        reveal_strlit("-");
        assert(s@ =~= versioned_name(binary@, *version));
    }
    s
}

/// The path a binary at a version is expected at, under the managed binary
/// directory.
pub fn versioned_binary_path(bin_dir: &str, binary: &str, version: &SemVer) -> (r: String)
    ensures
        r@ == join_path(bin_dir@, versioned_name(binary@, *version)),
{
    let mut s = bin_dir.to_owned();
    s.append("/");
    let name = versioned_binary_name(binary, version);
    s.append(name.as_str());
    proof {
        reveal_strlit("/");
        assert(s@ =~= join_path(bin_dir@, versioned_name(binary@, *version)));
    }
    s
}

/// Insert an entry into a version-sorted catalog, keeping the order strict.
/// An entry whose version is already present is dropped.
fn insert_sorted(list: &mut Vec<InstalledBinary>, item: InstalledBinary)
    requires
        catalog_sorted(old(list)@),
    ensures
        catalog_sorted(final(list)@),
        forall|i: int|
            0 <= i < final(list)@.len() ==> ((exists|j: int|
                0 <= j < old(list)@.len() && final(list)@[i] == old(list)@[j]) || final(list)@[i]
                == item),
        forall|j: int|
            0 <= j < old(list)@.len() ==> exists|i: int|
                0 <= i < final(list)@.len() && final(list)@[i] == #[trigger] old(list)@[j],
        exists|i: int| 0 <= i < final(list)@.len() && ver_eq(final(list)@[i].version, item.version),
{
    let mut idx: usize = 0;
    while idx < list.len() && list[idx].version.lt(&item.version)
        invariant
            idx <= list@.len(),
            catalog_sorted(list@),
            list@ == old(list)@,
            forall|k: int| 0 <= k < idx ==> ver_lt(list@[k].version, item.version),
        decreases list@.len() - idx,
    {
        idx += 1;
    }
    if idx < list.len() {
        let c = cmp_ver(&list[idx].version, &item.version);
        if c == 0 {
            proof {
                assert forall|j: int| 0 <= j < old(list)@.len() implies exists|i: int|
                    0 <= i < list@.len() && list@[i] == #[trigger] old(list)@[j] by {
                    assert(list@[j] == old(list)@[j]);
                }
                assert(ver_eq(list@[idx as int].version, item.version));
            }
            return ;
        }
    }
    // Every later element is above the insertion point: the ordering facts
    // come from comparing the three versions involved in each pair.
    if idx < list.len() {
        let mut k = idx + 1;
        while k < list.len()
            invariant
                idx < k <= list@.len(),
                list@ == old(list)@,
                catalog_sorted(list@),
                ver_lt(item.version, list@[idx as int].version),
                forall|t: int| idx <= t < k ==> ver_lt(item.version, list@[t].version),
            decreases list@.len() - k,
        {
            witness_lt_trans(&item.version, &list[idx].version, &list[k].version);
            k += 1;
        }
    }
    let ghost pre = list@;
    list.insert(idx, item);
    proof {
        let post = list@;
        assert forall|t: int| 0 <= t < post.len() implies post[t] == (if t < idx {
            pre[t]
        } else if t == idx {
            item
        } else {
            pre[t - 1]
        }) by {
            assert(post =~= pre.insert(idx as int, item));
        }
        assert forall|i: int, j: int| 0 <= i < j < post.len() implies ver_lt(
            post[i].version,
            post[j].version,
        ) by {
            if j < idx {
                assert(ver_lt(pre[i].version, pre[j].version));
            } else if j == idx {
                assert(ver_lt(pre[i].version, item.version));
            } else if i < idx {
                assert(ver_lt(pre[i].version, pre[j - 1].version));
            } else if i == idx {
                assert(ver_lt(item.version, pre[j - 1].version));
            } else {
                assert(ver_lt(pre[i - 1].version, pre[j - 1].version));
            }
        }
        assert forall|j: int| 0 <= j < pre.len() implies exists|i: int|
            0 <= i < post.len() && post[i] == #[trigger] pre[j] by {
            if j < idx {
                assert(post[j] == pre[j]);
            } else {
                assert(post[j + 1] == pre[j]);
            }
        }
        assert(post[idx as int] == item);
        assert(ver_eq(post[idx as int].version, item.version));
    }
}

/// Build the installed catalog for one binary name from the entries of the
/// managed binary directory.
///
/// An entry whose name is `<binary>-<version>` for any semantic version —
/// pre-release and build metadata included — becomes a catalog entry at path
/// `<bin_dir>/<name>`; a name whose suffix does not parse is skipped. The
/// result is strictly ascending by full semver precedence.
pub fn list_installed_versions(binary: &str, bin_dir: &str, entries: &Vec<String>) -> (res: Vec<
    InstalledBinary,
>)
    ensures
        catalog_sorted(res@),
        catalog_from_entries(binary@, bin_dir@, entries@, res@),
        catalog_covers(binary@, entries@, entries@.len() as int, res@),
{
    let mut prefix = binary.to_owned();
    prefix.append("-");
    proof {
        reveal_strlit("-");
        assert(prefix@ =~= binary@ + seq!['-']);
    }
    let plen = prefix.as_str().unicode_len();
    let mut res: Vec<InstalledBinary> = Vec::new();
    let mut k: usize = 0;
    while k < entries.len()
        invariant
            k <= entries@.len(),
            prefix@ == binary@ + seq!['-'],
            plen == prefix@.len(),
            plen == binary@.len() + 1,
            catalog_sorted(res@),
            catalog_from_entries(binary@, bin_dir@, entries@, res@),
            catalog_covers(binary@, entries@, k as int, res@),
        decreases entries@.len() - k,
    {
        let name = entries[k].as_str();
        let nlen = name.unicode_len();
        if nlen > plen {
            let head = name.substring_char(0, plen);
            if eq_str(head, prefix.as_str()) {
                let suffix = name.substring_char(plen, nlen);
                if let Some(v) = parse_version(suffix) {
                    proof {
                        assert(name@ =~= head@ + suffix@);
                        assert(name@.subrange(0, plen as int) =~= prefix@);
                        assert(entry_parses_to(binary@, entries@[k as int]@, ver_key(v)));
                    }
                    let mut path = bin_dir.to_owned();
                    path.append("/");
                    path.append(name);
                    proof {
                        reveal_strlit("/");
                        assert(path@ =~= join_path(bin_dir@, entries@[k as int]@));
                    }
                    let item = InstalledBinary { version: v, path };
                    let ghost gitem = item;
                    let ghost res_pre = res@;
                    insert_sorted(&mut res, item);
                    proof {
                        assert forall|i: int|
                            0 <= i < res@.len() implies exists|j: int|
                            0 <= j < entries@.len() && entry_parses_to(
                                binary@,
                                #[trigger] entries@[j]@,
                                ver_key((#[trigger] res@[i]).version),
                            ) && res@[i].path@ == join_path(bin_dir@, entries@[j]@) by {
                            if exists|j0: int| 0 <= j0 < res_pre.len() && res@[i] == res_pre[j0] {
                                let j0 = choose|j0: int|
                                    0 <= j0 < res_pre.len() && res@[i] == res_pre[j0];
                                assert(res@[i].version == res_pre[j0].version);
                            } else {
                                assert(res@[i] == gitem);
                                assert(entry_parses_to(
                                    binary@,
                                    entries@[k as int]@,
                                    ver_key(res@[i].version),
                                ));
                            }
                        }
                        assert(catalog_from_entries(binary@, bin_dir@, entries@, res@));
                        assert forall|j: int, k2: (u64, u64, u64, Seq<char>, Seq<char>)|
                            0 <= j < k + 1 && #[trigger] entry_parses_to(
                                binary@,
                                entries@[j]@,
                                k2,
                            ) implies exists|i: int|
                            0 <= i < res@.len() && ver_key(res@[i].version) == k2 by {
                            if j < k {
                                assert(exists|i0: int|
                                    0 <= i0 < res_pre.len() && ver_key(res_pre[i0].version) == k2);
                                let i0 = choose|i0: int|
                                    0 <= i0 < res_pre.len() && ver_key(res_pre[i0].version) == k2;
                                assert(exists|i1: int|
                                    0 <= i1 < res@.len() && res@[i1] == res_pre[i0]);
                                let i1 = choose|i1: int|
                                    0 <= i1 < res@.len() && res@[i1] == res_pre[i0];
                                assert(ver_key(res@[i1].version) == k2);
                            } else {
                                assert(entries@[k as int]@.subrange(plen as int, nlen as int)
                                    =~= suffix@);
                                assert(k2 == ver_key(v));
                                assert(exists|i: int|
                                    0 <= i < res@.len() && ver_eq(res@[i].version, gitem.version));
                                let i = choose|i: int|
                                    0 <= i < res@.len() && ver_eq(res@[i].version, gitem.version);
                                assert(ver_key(res@[i].version) == k2);
                            }
                        }
                        assert(catalog_covers(binary@, entries@, k + 1, res@));
                    }
                } else {
                    proof {
                        assert forall|k2: (u64, u64, u64, Seq<char>, Seq<char>)|
                            !entry_parses_to(binary@, entries@[k as int]@, k2) by {
                            if entry_parses_to(binary@, entries@[k as int]@, k2) {
                                assert(entries@[k as int]@ =~= head@ + suffix@);
                                assert(entries@[k as int]@.subrange(plen as int, nlen as int)
                                    =~= suffix@);
                            }
                        }
                    }
                }
            } else {
                proof {
                    assert forall|k2: (u64, u64, u64, Seq<char>, Seq<char>)|
                        !entry_parses_to(binary@, entries@[k as int]@, k2) by {
                        if entry_parses_to(binary@, entries@[k as int]@, k2) {
                            assert(entries@[k as int]@.subrange(0, plen as int) =~= prefix@);
                            assert(head@ == prefix@);
                        }
                    }
                }
            }
        } else {
            proof {
                assert forall|k2: (u64, u64, u64, Seq<char>, Seq<char>)|
                    !entry_parses_to(binary@, entries@[k as int]@, k2) by {}
            }
        }
        k += 1;
    }
    res
}

/// The highest installed version, if any.
pub fn latest_installed(installed: &Vec<InstalledBinary>) -> (r: Option<InstalledBinary>)
    requires
        catalog_sorted(installed@),
    ensures
        match r {
            Some(e) => installed@.len() > 0 && e == installed@.last() && forall|i: int|
                0 <= i < installed@.len() ==> ver_le(installed@[i].version, e.version),
            None => installed@.len() == 0,
        },
{
    if installed.len() == 0 {
        None
    } else {
        let e = installed[installed.len() - 1].clone();
        Some(e)
    }
}

/// The highest installed version satisfying a requirement, if any.
pub fn find_installed_version(installed: &Vec<InstalledBinary>, requirement: &str) -> (r: Option<
    InstalledBinary,
>)
    requires
        catalog_sorted(installed@),
    ensures
        match r {
            Some(e) => (exists|i: int| 0 <= i < installed@.len() && installed@[i] == e) && req_ok(
                requirement@,
                e.version,
            ) && forall|j: int|
                0 <= j < installed@.len() && req_ok(requirement@, installed@[j].version)
                    ==> ver_le(installed@[j].version, e.version),
            None => forall|i: int|
                0 <= i < installed@.len() ==> !req_ok(requirement@, installed@[i].version),
        },
{
    let mut idx = installed.len();
    while idx > 0
        invariant
            idx <= installed@.len(),
            catalog_sorted(installed@),
            forall|j: int|
                idx <= j < installed@.len() ==> !req_ok(requirement@, installed@[j].version),
        decreases idx,
    {
        idx -= 1;
        let e = &installed[idx];
        if req_matches_version(requirement, &e.version) {
            return Some(e.clone());
        }
    }
    None
}

} // verus!
