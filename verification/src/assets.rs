//! Where the game looks for its asset folder: an `assets` folder next to
//! the working directory or the executable, or one or two levels up.
use vstd::prelude::*;
use crate::text::{has_prefix, last_index_of, lemma_last_index_of, string_from};

verus! {

/// `Path::join` of `base` and the relative path `assets`, as text: `assets`
/// alone for an empty base; `base` then `assets` when `base` ends in `/`;
/// `base`, a separator (`/`, or `\` where that is the platform's), then
/// `assets` when `base` ends in anything but a separator or `:`. After a
/// final `\` or `:` the platform decides whether a separator follows (none
/// after a Windows separator or bare drive, `/` elsewhere).
pub open spec fn joined_assets(base: Seq<char>, r: Seq<char>) -> bool {
    if base.len() == 0 {
        r == "assets"@
    } else if base.last() == '/' {
        r == base + "assets"@
    } else if base.last() == '\\' || base.last() == ':' {
        r == base + "assets"@ || r == base + "/assets"@ || r == base + "\\assets"@
    } else {
        r == base + "/assets"@ || r == base + "\\assets"@
    }
}

/// A Windows verbatim path (`\\?\...`), which joining normalizes.
pub open spec fn verbatim_prefixed(p: Seq<char>) -> bool {
    has_prefix(p, "\\\\?\\"@)
}

/// A `//` at position `i` of `s`.
pub open spec fn double_slash_at(s: Seq<char>, i: int) -> bool {
    s[i] == '/' && s[i + 1] == '/'
}

/// A `.` or `..` component starts at position `i` of `s`.
pub open spec fn dot_component_at(s: Seq<char>, i: int) -> bool {
    &&& s[i] == '.'
    &&& (i == 0 || s[i - 1] == '/')
    &&& (i + 1 == s.len() || s[i + 1] == '/' || (s[i + 1] == '.' && (i + 2 == s.len() || s[i
        + 2] == '/')))
}

/// `s` is a relative path of plain components, read alike on every
/// platform: not empty, no `\` or `:`, no `/` at either end, no empty
/// component (`//`) and no `.` or `..` component.
pub open spec fn plain_components(s: Seq<char>) -> bool {
    &&& s.len() > 0
    &&& s[0] != '/'
    &&& s.last() != '/'
    &&& forall|i: int| 0 <= i < s.len() ==> #[trigger] s[i] != '\\' && s[i] != ':'
    &&& forall|i: int| 0 <= i < s.len() - 1 ==> !#[trigger] double_slash_at(s, i)
    &&& forall|i: int| 0 <= i < s.len() ==> !#[trigger] dot_component_at(s, i)
}

/// A path whose parent every platform reads alike: empty, plain
/// components, or `/` followed by none or by plain components.
pub open spec fn clean_path(p: Seq<char>) -> bool {
    ||| p.len() == 0
    ||| plain_components(p)
    ||| (p[0] == '/' && (p.len() == 1 || plain_components(p.skip(1))))
}

/// `Path::parent` of a clean path: none for the empty path and for `/`;
/// else the text before the last `/`, which is `/` itself when that is the
/// first character, and empty when there is no `/`.
pub open spec fn parent_of_clean(p: Seq<char>) -> Option<Seq<char>> {
    if p.len() == 0 || p == seq!['/'] {
        None
    } else {
        let k = last_index_of(p, '/');
        if k < 0 {
            Some(Seq::empty())
        } else if k == 0 {
            Some(seq!['/'])
        } else {
            Some(p.take(k))
        }
    }
}

/// `Path::parent` of `path`, as text; `None` when the path ends in a root
/// or prefix or has no components. For a clean path (see [`clean_path`])
/// the contract states the parent, as std documents it on every platform;
/// for other paths the platform's path rules decide, and it states only that
/// the parent is a leading part of the path.
#[verifier::external_body]
fn path_parent(path: &str) -> (r: Option<String>)
    ensures
        r matches Some(p) ==> has_prefix(path@, p@),
        clean_path(path@) ==> r.deep_view() == parent_of_clean(path@),
{
    match std::path::Path::new(path).parent() {
        Some(p) => Some(p.to_string_lossy().into_owned()),
        None => None,
    }
}

/// `Path::join` of `base` and the relative path `assets`, as text (see
/// [`joined_assets`]): a separator goes between them unless `base` is
/// empty, already ends in one, or is a bare drive, and the separator is the
/// platform's. A Windows verbatim base (`\\?\...`) is normalized by the
/// join; of such a base the contract states nothing.
#[verifier::external_body]
fn path_join_assets(base: &str) -> (r: String)
    ensures
        !verbatim_prefixed(base@) ==> joined_assets(base@, r@),
{
    std::path::Path::new(base).join("assets").to_string_lossy().into_owned()
}

proof fn lemma_plain_prefix(s: Seq<char>, k: int)
    requires
        plain_components(s),
        0 < k < s.len(),
        s[k] == '/',
    ensures
        plain_components(s.take(k)),
{
    let t = s.take(k);
    assert(!double_slash_at(s, k - 1));
    assert forall|i: int| 0 <= i < t.len() implies #[trigger] t[i] != '\\' && t[i] != ':' by {
        assert(t[i] == s[i]);
    }
    assert forall|i: int| 0 <= i < t.len() - 1 implies !#[trigger] double_slash_at(t, i) by {
        assert(!double_slash_at(s, i));
    }
    assert forall|i: int| 0 <= i < t.len() implies !#[trigger] dot_component_at(t, i) by {
        assert(!dot_component_at(s, i));
    }
}

proof fn lemma_parent_of_clean_is_clean(p: Seq<char>)
    requires
        clean_path(p),
        parent_of_clean(p) is Some,
    ensures
        clean_path(parent_of_clean(p).unwrap()),
{
    lemma_last_index_of(p, '/');
    let k = last_index_of(p, '/');
    if plain_components(p) {
        assert(p[0] != '\\');
        if k > 0 {
            lemma_plain_prefix(p, k);
        }
    } else {
        assert(p[0] == '/');
        let r = p.skip(1);
        if k > 0 {
            assert(r[k - 1] == '/');
            assert(k - 1 > 0);
            assert(r.last() == p.last());
            assert(k - 1 < r.len() - 1);
            lemma_plain_prefix(r, k - 1);
            assert(p.take(k).skip(1) =~= r.take(k - 1));
        } else if k == 0 {
            assert(plain_components(seq!['/'].skip(1)) || seq!['/'].len() == 1);
        }
    }
}

proof fn lemma_clean_not_verbatim(p: Seq<char>)
    requires
        clean_path(p),
    ensures
        !verbatim_prefixed(p),
{
    let v = "\\\\?\\"@;
    reveal_strlit("\\\\?\\");
    if verbatim_prefixed(p) {
        assert(v[0] == '\\');
        assert(p.take(v.len() as int)[0] == v[0]);
        assert(p[0] == '\\');
    }
}

proof fn lemma_prefix_not_verbatim(base: Seq<char>, p: Seq<char>)
    requires
        has_prefix(base, p),
        !verbatim_prefixed(base),
    ensures
        !verbatim_prefixed(p),
{
    if verbatim_prefixed(p) {
        let v = "\\\\?\\"@;
        assert(base.take(v.len() as int) =~= p.take(v.len() as int));
    }
}

/// Adds the asset folders to try for `base`: `base/assets`, then the
/// `assets` folder of its parent and of its grandparent, where they exist.
pub fn push_asset_candidates(candidates: &mut Vec<String>, base: &str)
    ensures
        old(candidates)@.len() + 1 <= final(candidates)@.len() <= old(candidates)@.len() + 3,
        final(candidates)@.take(old(candidates)@.len() as int) == old(candidates)@,
        !verbatim_prefixed(base@) ==> joined_assets(
            base@,
            final(candidates)@[old(candidates)@.len() as int]@,
        ),
        !verbatim_prefixed(base@) ==> forall|k: int|
            old(candidates)@.len() < k < final(candidates)@.len() ==> exists|p: Seq<char>|
                has_prefix(base@, p) && joined_assets(p, #[trigger] final(candidates)@[k]@),
        clean_path(base@) ==> match parent_of_clean(base@) {
            None => final(candidates)@.len() == old(candidates)@.len() + 1,
            Some(p) => joined_assets(p, final(candidates)@[old(candidates)@.len() as int + 1]@)
                && match parent_of_clean(p) {
                None => final(candidates)@.len() == old(candidates)@.len() + 2,
                Some(g) => final(candidates)@.len() == old(candidates)@.len() + 3
                    && joined_assets(g, final(candidates)@[old(candidates)@.len() as int + 2]@),
            },
        },
{
    let ghost start = candidates@;
    proof {
        if clean_path(base@) {
            lemma_clean_not_verbatim(base@);
        }
    }
    candidates.push(path_join_assets(base));
    if let Some(parent) = path_parent(base) {
        proof {
            if clean_path(base@) {
                lemma_parent_of_clean_is_clean(base@);
                lemma_clean_not_verbatim(parent@);
            }
            if !verbatim_prefixed(base@) {
                lemma_prefix_not_verbatim(base@, parent@);
            }
        }
        candidates.push(path_join_assets(parent.as_str()));
        let ghost k1: int = start.len() as int + 1;
        assert(!verbatim_prefixed(base@) ==> has_prefix(base@, parent@) && joined_assets(
            parent@,
            candidates@[k1]@,
        ));
        if let Some(grandparent) = path_parent(parent.as_str()) {
            proof {
                if clean_path(base@) {
                    lemma_parent_of_clean_is_clean(parent@);
                    lemma_clean_not_verbatim(grandparent@);
                }
                assert(grandparent@ == parent@.take(grandparent@.len() as int));
                assert(base@.take(grandparent@.len() as int) == grandparent@);
                if !verbatim_prefixed(base@) {
                    lemma_prefix_not_verbatim(base@, grandparent@);
                }
            }
            candidates.push(path_join_assets(grandparent.as_str()));
            proof {
                let k2: int = start.len() as int + 2;
                assert(!verbatim_prefixed(base@) ==> has_prefix(base@, grandparent@)
                    && joined_assets(grandparent@, candidates@[k2]@));
                assert(!verbatim_prefixed(base@) ==> has_prefix(base@, parent@) && joined_assets(
                    parent@,
                    candidates@[k1]@,
                ));
            }
        }
    }
    assert(candidates@.take(start.len() as int) =~= start);
}

/// The first candidate that is a folder (`is_dir[k]` tells whether candidate
/// `k` is one), or `assets` when none is.
pub open spec fn first_folder(candidates: Seq<Seq<char>>, is_dir: Seq<bool>) -> Seq<char>
    decreases candidates.len(),
{
    if candidates.len() == 0 {
        "assets"@
    } else if is_dir[0] {
        candidates[0]
    } else {
        first_folder(candidates.drop_first(), is_dir.drop_first())
    }
}

/// Picks the asset folder among `candidates`, in order.
pub fn choose_asset_path(candidates: &Vec<String>, is_dir: &Vec<bool>) -> (r: String)
    requires
        is_dir@.len() == candidates@.len(),
    ensures
        r@ == first_folder(candidates.deep_view(), is_dir@),
{
    let ghost cs = candidates.deep_view();
    assert(cs.skip(0) =~= cs);
    assert(is_dir@.skip(0) =~= is_dir@);
    for k in 0..candidates.len()
        invariant
            is_dir@.len() == candidates@.len(),
            cs == candidates.deep_view(),
            first_folder(cs.skip(k as int), is_dir@.skip(k as int)) == first_folder(cs, is_dir@),
    {
        assert(cs.skip(k as int).drop_first() =~= cs.skip(k + 1));
        assert(is_dir@.skip(k as int).drop_first() =~= is_dir@.skip(k + 1));
        if is_dir[k] {
            return candidates[k].clone();
        }
    }
    proof {
        assert(cs.skip(cs.len() as int).len() == 0);
    }
    string_from("assets")
}

} // verus!
