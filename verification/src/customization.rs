//! Skins, sound packs, personalities and settings bundles.
use vstd::prelude::*;
use vstd::string::*;
use crate::text::{capitalize, capitalized, str_eq};

verus! {

#[derive(Debug, Clone)]
pub struct SkinManifest {
    pub id: String,
    pub name: String,
    pub author: String,
    pub version: String,
    pub frame_width: u32,
    pub frame_height: u32,
    pub preview: String,
    pub builtin: bool,
    pub asset_path: Option<String>,
}

#[derive(Debug, Clone)]
pub struct SoundPackManifest {
    pub id: String,
    pub name: String,
    pub author: String,
    pub version: String,
    pub builtin: bool,
}

#[derive(Debug, Clone)]
pub struct PersonalityInfo {
    pub id: String,
    pub name: String,
}

/// Version of the settings bundle format.
pub open spec fn bundle_version() -> Seq<char> {
    "1.0.0"@
}

/// Skins that ship with the application.
pub open spec fn is_builtin_skin_id(id: Seq<char>) -> bool {
    id == "default"@ || id == "ghosty"@
}

pub fn is_builtin_skin(id: &str) -> (b: bool)
    ensures
        b == is_builtin_skin_id(id@),
{
    str_eq(id, "default") || str_eq(id, "ghosty")
}

fn builtin_skin(id: &str, name: &str) -> (m: SkinManifest)
    ensures
        m.id@ == id@,
        m.name@ == name@,
        m.author@ == "UWU Team"@,
        m.version@ == "1.0.0"@,
        m.frame_width == 64,
        m.frame_height == 64,
        m.preview@ == "preview.png"@,
        m.builtin,
        m.asset_path is None,
{
    SkinManifest {
        id: id.to_string(),
        name: name.to_string(),
        author: String::from_str("UWU Team"),
        version: String::from_str("1.0.0"),
        frame_width: 64,
        frame_height: 64,
        preview: String::from_str("preview.png"),
        builtin: true,
        asset_path: None,
    }
}

/// The built-in skins, "default" then "ghosty", each 64×64 by the UWU Team.
pub fn builtin_skin_manifests() -> (skins: Vec<SkinManifest>)
    ensures
        skins@.len() == 2,
        skins@[0].id@ == "default"@ && skins@[0].name@ == "Default"@,
        skins@[1].id@ == "ghosty"@ && skins@[1].name@ == "Ghosty"@,
        forall|i: int|
            0 <= i < 2 ==> (#[trigger] skins@[i]).builtin && skins@[i].asset_path is None
                && skins@[i].author@ == "UWU Team"@ && skins@[i].version@ == "1.0.0"@
                && skins@[i].frame_width == 64 && skins@[i].frame_height == 64
                && skins@[i].preview@ == "preview.png"@,
{
    let mut skins: Vec<SkinManifest> = Vec::new();
    skins.push(builtin_skin("default", "Default"));
    skins.push(builtin_skin("ghosty", "Ghosty"));
    skins
}

/// The built-in sound pack.
pub fn builtin_sound_pack_manifests() -> (packs: Vec<SoundPackManifest>)
    ensures
        packs@.len() == 1,
        packs@[0].id@ == "default"@,
        packs@[0].name@ == "Default"@,
        packs@[0].author@ == "UWU Team"@,
        packs@[0].version@ == "1.0.0"@,
        packs@[0].builtin,
{
    let mut packs: Vec<SoundPackManifest> = Vec::new();
    packs.push(
        SoundPackManifest {
            id: String::from_str("default"),
            name: String::from_str("Default"),
            author: String::from_str("UWU Team"),
            version: String::from_str("1.0.0"),
            builtin: true,
        },
    );
    packs
}

/// The identifier of a skin or sound pack: the one in its manifest, else its
/// folder's name; with neither, `missing` is the error.
pub fn manifest_id(declared: Option<String>, folder_name: Option<String>, missing: &str) -> (r:
    Result<String, String>)
    ensures
        declared is Some ==> r == Ok::<String, String>(declared->0),
        declared is None && folder_name is Some ==> r == Ok::<String, String>(folder_name->0),
        declared is None && folder_name is None ==> (r matches Err(e) && e@ == missing@),
{
    match declared {
        Some(id) => Ok(id),
        None => match folder_name {
            Some(name) => Ok(name),
            None => Err(missing.to_string()),
        },
    }
}

/// A personality listed from its file: the identifier is the file name with
/// its first letter upper-cased; the display name is the file's "name" entry,
/// or the identifier.
pub fn personality_info(stem: &str, declared_name: Option<String>) -> (p: PersonalityInfo)
    ensures
        p.id@ == capitalized(stem@),
        p.name@ == (match declared_name {
            Some(n) => n@,
            None => capitalized(stem@),
        }),
{
    let id = capitalize(stem);
    let name = match declared_name {
        Some(n) => n,
        None => capitalize(stem),
    };
    PersonalityInfo { id, name }
}

/// Lexicographic order of character sequences, comparing code points: the
/// order `str::cmp` uses (UTF-8 bytes compare as their code points do).
pub open spec fn lex_le(a: Seq<char>, b: Seq<char>) -> bool
    decreases a.len(),
{
    if a.len() == 0 {
        true
    } else if b.len() == 0 {
        false
    } else if (a[0] as u32) < (b[0] as u32) {
        true
    } else if (a[0] as u32) > (b[0] as u32) {
        false
    } else {
        lex_le(a.drop_first(), b.drop_first())
    }
}

proof fn lemma_lex_le_reflexive(a: Seq<char>)
    ensures
        lex_le(a, a),
    decreases a.len(),
{
    if a.len() > 0 {
        lemma_lex_le_reflexive(a.drop_first());
    }
}

proof fn lemma_lex_le_total(a: Seq<char>, b: Seq<char>)
    ensures
        lex_le(a, b) || lex_le(b, a),
    decreases a.len(),
{
    if a.len() > 0 && b.len() > 0 && a[0] as u32 == b[0] as u32 {
        lemma_lex_le_total(a.drop_first(), b.drop_first());
    }
}

proof fn lemma_lex_le_antisymmetric(a: Seq<char>, b: Seq<char>)
    requires
        lex_le(a, b),
        lex_le(b, a),
    ensures
        a == b,
    decreases a.len(),
{
    if a.len() > 0 {
        lemma_lex_le_antisymmetric(a.drop_first(), b.drop_first());
        vstd::utf8::char_u32_cast(a[0], a[0] as u32);
        vstd::utf8::char_u32_cast(b[0], b[0] as u32);
        assert(a[0] == b[0]);
        assert(a =~= seq![a[0]] + a.drop_first());
        assert(b =~= seq![b[0]] + b.drop_first());
    }
}

proof fn lemma_lex_le_transitive(a: Seq<char>, b: Seq<char>, c: Seq<char>)
    requires
        lex_le(a, b),
        lex_le(b, c),
    ensures
        lex_le(a, c),
    decreases a.len(),
{
    if a.len() > 0 && b.len() > 0 && c.len() > 0 && a[0] as u32 == b[0] as u32 && b[0] as u32
        == c[0] as u32 {
        lemma_lex_le_transitive(a.drop_first(), b.drop_first(), c.drop_first());
    }
}

/// Whether `a` sorts before or together with `b` (`a <= b` on strings).
pub fn name_le(a: &str, b: &str) -> (le: bool)
    ensures
        le == lex_le(a@, b@),
{
    let n = a.unicode_len();
    let m = b.unicode_len();
    let mut i: usize = 0;
    assert(a@.subrange(0, n as int) =~= a@);
    assert(b@.subrange(0, m as int) =~= b@);
    while i < n && i < m
        invariant
            n == a@.len(),
            m == b@.len(),
            i <= n,
            i <= m,
            lex_le(a@, b@) == lex_le(a@.subrange(i as int, n as int), b@.subrange(i as int, m as int)),
        decreases n - i,
    {
        let x = a.get_char(i) as u32;
        let y = b.get_char(i) as u32;
        proof {
            let s = a@.subrange(i as int, n as int);
            let t = b@.subrange(i as int, m as int);
            assert(s.drop_first() =~= a@.subrange(i + 1, n as int));
            assert(t.drop_first() =~= b@.subrange(i + 1, m as int));
        }
        if x < y {
            return true;
        }
        if x > y {
            return false;
        }
        i = i + 1;
    }
    i == n
}

/// `order` lists every position of `names` once, sorted by name, with equal
/// names in their original order: what a stable sort by name produces.
pub open spec fn is_stable_name_order(names: Seq<Seq<char>>, order: Seq<usize>) -> bool {
    &&& order.len() == names.len()
    &&& forall|i: int| 0 <= i < order.len() ==> #[trigger] order[i] < names.len()
    &&& forall|i: int, j: int| 0 <= i < j < order.len() ==> order[i] != order[j]
    &&& forall|i: int, j: int|
        0 <= i < j < order.len() ==> lex_le(names[order[i] as int], names[order[j] as int])
    &&& forall|i: int, j: int|
        0 <= i < j < order.len() && names[order[i] as int] == names[order[j] as int] ==> order[i]
            < order[j]
}

/// The order in which to list entries with these names: sorted by name, ties
/// kept in their original order (`sort_by` on the names).
pub fn name_order(names: &Vec<String>) -> (order: Vec<usize>)
    ensures
        is_stable_name_order(names@.map_values(|s: String| s@), order@),
{
    let ghost ns = names@.map_values(|s: String| s@);
    let n = names.len();
    let mut order: Vec<usize> = Vec::new();
    let mut k: usize = 0;
    while k < n
        invariant
            n == names@.len(),
            ns == names@.map_values(|s: String| s@),
            k <= n,
            order@.len() == k,
            forall|i: int| 0 <= i < order@.len() ==> #[trigger] order@[i] < k,
            forall|i: int, j: int| 0 <= i < j < order@.len() ==> order@[i] != order@[j],
            forall|i: int, j: int|
                0 <= i < j < order@.len() ==> lex_le(ns[order@[i] as int], ns[order@[j] as int]),
            forall|i: int, j: int|
                0 <= i < j < order@.len() && ns[order@[i] as int] == ns[order@[j] as int]
                    ==> order@[i] < order@[j],
        decreases n - k,
    {
        let mut j: usize = order.len();
        while j > 0 && !name_le(names[order[j - 1]].as_str(), names[k].as_str())
            invariant
                n == names@.len(),
                ns == names@.map_values(|s: String| s@),
                k < n,
                j <= order@.len(),
                forall|i: int| 0 <= i < order@.len() ==> #[trigger] order@[i] < k,
                forall|x: int| j <= x < order@.len() ==> !lex_le(
                    ns[#[trigger] order@[x] as int],
                    ns[k as int],
                ),
            decreases j,
        {
            assert(ns[order@[j - 1] as int] == names@[order@[j - 1] as int]@);
            assert(ns[k as int] == names@[k as int]@);
            j = j - 1;
        }
        proof {
            assert(ns[k as int] == names@[k as int]@);
            if j > 0 {
                assert(ns[order@[j - 1] as int] == names@[order@[j - 1] as int]@);
            }
        }
        let ghost old_order = order@;
        order.insert(j, k);
        proof {
            let o = old_order;
            assert(order@ =~= o.subrange(0, j as int).push(k).add(o.subrange(j as int, o.len() as int)));
            assert forall|x: int| 0 <= x < j implies lex_le(ns[o[x] as int], ns[k as int]) by {
                if x < j - 1 {
                    lemma_lex_le_transitive(ns[o[x] as int], ns[o[j - 1] as int], ns[k as int]);
                }
            }
            assert forall|x: int| j <= x < o.len() implies lex_le(ns[k as int], ns[o[x] as int])
                && ns[k as int] != ns[o[x] as int] by {
                lemma_lex_le_total(ns[k as int], ns[o[x] as int]);
                if ns[k as int] == ns[o[x] as int] {
                    lemma_lex_le_reflexive(ns[k as int]);
                }
            }
            assert forall|a: int| 0 <= a < order@.len() implies #[trigger] order@[a] < k + 1 by {
                if a < j {
                    assert(order@[a] == o[a]);
                } else if a > j {
                    assert(order@[a] == o[a - 1]);
                }
            }
            assert forall|a: int, b: int| 0 <= a < b < order@.len() implies order@[a] != order@[b]
                && lex_le(ns[order@[a] as int], ns[order@[b] as int]) && (ns[order@[a] as int]
                == ns[order@[b] as int] ==> order@[a] < order@[b]) by {
                if b < j {
                    assert(order@[a] == o[a] && order@[b] == o[b]);
                } else if b == j {
                    assert(order@[a] == o[a] && order@[b] == k);
                } else if a > j {
                    assert(order@[a] == o[a - 1] && order@[b] == o[b - 1]);
                } else if a == j {
                    assert(order@[a] == k && order@[b] == o[b - 1]);
                } else {
                    assert(order@[a] == o[a] && order@[b] == o[b - 1]);
                    lemma_lex_le_transitive(ns[o[a] as int], ns[k as int], ns[o[b - 1] as int]);
                    if ns[o[a] as int] == ns[o[b - 1] as int] {
                        lemma_lex_le_antisymmetric(ns[o[a] as int], ns[k as int]);
                    }
                }
            }
        }
        k = k + 1;
    }
    order
}

/// Whether no entry before position `i` has the identifier of entry `i`.
pub open spec fn first_at(ids: Seq<String>, i: int) -> bool {
    forall|j: int| 0 <= j < i ==> (#[trigger] ids[j])@ != ids[i]@
}

/// Positions of the first occurrence of each distinct identifier, in order:
/// later entries whose identifier was already seen are dropped.
pub fn first_occurrences(ids: &Vec<String>) -> (kept: Vec<usize>)
    ensures
        forall|k: int|
            0 <= k < kept@.len() ==> #[trigger] kept@[k] < ids@.len() && first_at(
                ids@,
                kept@[k] as int,
            ),
        forall|a: int, b: int| 0 <= a < b < kept@.len() ==> kept@[a] < kept@[b],
        forall|i: int| 0 <= i < ids@.len() && first_at(ids@, i) ==> kept@.contains(i as usize),
{
    let n = ids.len();
    let mut kept: Vec<usize> = Vec::new();
    let mut i: usize = 0;
    while i < n
        invariant
            n == ids@.len(),
            i <= n,
            forall|k: int|
                0 <= k < kept@.len() ==> #[trigger] kept@[k] < i && first_at(ids@, kept@[k] as int),
            forall|a: int, b: int| 0 <= a < b < kept@.len() ==> kept@[a] < kept@[b],
            forall|q: int| 0 <= q < i && first_at(ids@, q) ==> kept@.contains(q as usize),
        decreases n - i,
    {
        let mut seen = false;
        let mut j: usize = 0;
        while j < i
            invariant
                n == ids@.len(),
                i < n,
                j <= i,
                seen == exists|x: int| 0 <= x < j && (#[trigger] ids@[x])@ == ids@[i as int]@,
            decreases i - j,
        {
            if str_eq(ids[j].as_str(), ids[i].as_str()) {
                seen = true;
            }
            j = j + 1;
        }
        if !seen {
            let ghost before = kept@;
            kept.push(i);
            assert forall|q: int| 0 <= q < i + 1 && first_at(ids@, q) implies kept@.contains(
                q as usize,
            ) by {
                if q < i {
                    let w = choose|w: int| 0 <= w < before.len() && before[w] == q as usize;
                    assert(kept@[w] == q as usize);
                } else {
                    assert(kept@[kept@.len() - 1] == q as usize);
                }
            }
        } else {
            assert(!first_at(ids@, i as int));
        }
        i = i + 1;
    }
    kept
}

/// Bundles of another format version are refused.
pub fn check_bundle_version(version: &str) -> (r: Result<(), String>)
    ensures
        version@ == bundle_version() ==> r is Ok,
        version@ != bundle_version() ==> (r matches Err(e) && e@ == "Unsupported bundle version: "@
            + version@),
{
    if str_eq(version, "1.0.0") {
        Ok(())
    } else {
        Err(String::from_str("Unsupported bundle version: ").concat(version))
    }
}

} // verus!
