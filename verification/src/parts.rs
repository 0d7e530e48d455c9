//! The parts that a creature is put together from: three kinds of image
//! fragments, told apart by a marker at the end of the file stem, and the
//! name that a combination of three of them spells.

use vstd::prelude::*;
use vstd::string::*;
use vstd::utf8::*;
use crate::random::choose_from;
use crate::text::{
    byte_len, bytes_before, bytes_from, ends_with, file_name_of, file_stem_of, get_file_stem,
    has_file_name, has_suffix, head_bytes, names_file, on_char_boundary, push_text, remove_all,
    tail_bytes, without,
};

verus! {

/// The three kinds of parts.
#[derive(Debug, Clone, Copy, PartialEq, Eq, Structural)]
pub enum PartKind {
    Body,
    Mouth,
    Eyes,
}

/// The marker that ends the file stem of a part of `kind`.
pub open spec fn marker_of(kind: PartKind) -> Seq<char> {
    match kind {
        PartKind::Body => "_b"@,
        PartKind::Mouth => "_m"@,
        PartKind::Eyes => "_e"@,
    }
}

/// The file stem of the part at `path`.
pub open spec fn stem_of(path: Seq<char>) -> Seq<char> {
    file_stem_of(file_name_of(path))
}

/// The kind of part that a file stem announces, if any.
pub open spec fn kind_of_stem(stem: Seq<char>) -> Option<PartKind> {
    if has_suffix(stem, marker_of(PartKind::Body)) {
        Some(PartKind::Body)
    } else if has_suffix(stem, marker_of(PartKind::Mouth)) {
        Some(PartKind::Mouth)
    } else if has_suffix(stem, marker_of(PartKind::Eyes)) {
        Some(PartKind::Eyes)
    } else {
        None
    }
}

/// The kind of the part at `path`, if it is one: the path must name a
/// file, and the stem of that file must end in a marker.
pub open spec fn kind_of_path(path: Seq<char>) -> Option<PartKind> {
    if names_file(path) {
        kind_of_stem(stem_of(path))
    } else {
        None
    }
}

/// What the part at `path` is called: its file stem without the marker of
/// its kind, wherever in the stem that marker stands.
pub open spec fn label_of(path: Seq<char>, kind: PartKind) -> Seq<char> {
    without(stem_of(path), marker_of(kind))
}

/// The smaller of two numbers.
pub open spec fn least(a: int, b: int) -> int {
    if a <= b {
        a
    } else {
        b
    }
}

/// The byte offset at which a label is cut for the name. A body gives what
/// lies before it, a mouth and eyes what lies after.
pub open spec fn cut_of(label: Seq<char>, kind: PartKind) -> int {
    match kind {
        PartKind::Body => least(3, byte_len(label) as int),
        PartKind::Mouth => least(3, byte_len(label) - 3),
        PartKind::Eyes => least(6, byte_len(label) - 3),
    }
}

/// Whether a label can be cut for the name: a mouth and eyes need three
/// bytes at least, and the cut must not fall inside a character.
pub open spec fn nameable_label(label: Seq<char>, kind: PartKind) -> bool {
    &&& kind != PartKind::Body ==> byte_len(label) >= 3
    &&& on_char_boundary(label, cut_of(label, kind))
}

/// The share of a label in the name: of a body its first three bytes; of a
/// mouth what follows its third byte, but its last three bytes at least; of
/// eyes what follows their sixth byte, but their last three bytes at least.
pub open spec fn piece_of_label(label: Seq<char>, kind: PartKind) -> Seq<char> {
    match kind {
        PartKind::Body => bytes_before(label, cut_of(label, kind)),
        _ => bytes_from(label, cut_of(label, kind)),
    }
}

/// Whether the part at `path` can give its share of a name: the path
/// names a file, and the label of that file can be cut.
pub open spec fn nameable(path: Seq<char>, kind: PartKind) -> bool {
    names_file(path) && nameable_label(label_of(path, kind), kind)
}

/// The share of the part at `path` in the name.
pub open spec fn piece_of(path: Seq<char>, kind: PartKind) -> Seq<char> {
    piece_of_label(label_of(path, kind), kind)
}

/// The name that the three parts spell: the shares of body, mouth and
/// eyes, in that order.
pub open spec fn dino_name_of(body: Seq<char>, mouth: Seq<char>, eyes: Seq<char>) -> Seq<char> {
    piece_of(body, PartKind::Body) + piece_of(mouth, PartKind::Mouth) + piece_of(
        eyes,
        PartKind::Eyes,
    )
}

/// The marker that ends the file stem of a part of `kind`.
pub fn marker(kind: PartKind) -> (text: &'static str)
    ensures
        text@ == marker_of(kind),
{
    match kind {
        PartKind::Body => "_b",
        PartKind::Mouth => "_m",
        PartKind::Eyes => "_e",
    }
}

/// Tells what kind of part the file at `path` is, by the end of its stem.
pub fn classify(path: &str) -> (kind: Option<PartKind>)
    ensures
        kind == kind_of_path(path@),
{
    if !has_file_name(path) {
        return None;
    }
    let stem = get_file_stem(path);
    if ends_with(stem.as_str(), marker(PartKind::Body)) {
        Some(PartKind::Body)
    } else if ends_with(stem.as_str(), marker(PartKind::Mouth)) {
        Some(PartKind::Mouth)
    } else if ends_with(stem.as_str(), marker(PartKind::Eyes)) {
        Some(PartKind::Eyes)
    } else {
        None
    }
}

/// The share of the part at `path` in a name, or `None` where the part
/// cannot give one.
pub fn name_piece(path: &str, kind: PartKind) -> (piece: Option<String>)
    ensures
        piece is Some <==> nameable(path@, kind),
        piece matches Some(text) ==> text@ == piece_of(path@, kind),
{
    broadcast use is_char_boundary_start_end_of_seq, encode_utf8_valid_utf8;

    if !has_file_name(path) {
        return None;
    }
    let stem = get_file_stem(path);
    let label = remove_all(stem.as_str(), marker(kind));
    let text = label.as_str();
    let len: usize = text.as_bytes().len();
    assert(len == byte_len(label@));
    match kind {
        PartKind::Body => {
            let cut: usize = if len < 3 {
                len
            } else {
                3
            };
            if text.is_char_boundary(cut) {
                Some(String::from_str(head_bytes(text, cut)))
            } else {
                None
            }
        },
        PartKind::Mouth => {
            if len < 3 {
                return None;
            }
            let cut: usize = if len - 3 < 3 {
                len - 3
            } else {
                3
            };
            if text.is_char_boundary(cut) {
                Some(String::from_str(tail_bytes(text, cut)))
            } else {
                None
            }
        },
        PartKind::Eyes => {
            if len < 3 {
                return None;
            }
            let cut: usize = if len - 3 < 6 {
                len - 3
            } else {
                6
            };
            if text.is_char_boundary(cut) {
                Some(String::from_str(tail_bytes(text, cut)))
            } else {
                None
            }
        },
    }
}

/// Three parts, one of each kind, by their paths, and the name they spell.
#[derive(Debug, Clone)]
pub struct DinoParts {
    pub body: String,
    pub mouth: String,
    pub eyes: String,
    pub name: String,
}

impl DinoParts {
    /// Whether each of the three paths names a file.
    pub open spec fn has_paths(self) -> bool {
        names_file(self.body@) && names_file(self.mouth@) && names_file(self.eyes@)
    }

    /// Whether each of the three parts can give its share of the name.
    pub open spec fn nameable(self) -> bool {
        &&& nameable(self.body@, PartKind::Body)
        &&& nameable(self.mouth@, PartKind::Mouth)
        &&& nameable(self.eyes@, PartKind::Eyes)
    }

    /// Whether the parts carry the name that they spell.
    pub open spec fn named(self) -> bool {
        self.nameable() && self.name@ == dino_name_of(self.body@, self.mouth@, self.eyes@)
    }
}

impl DinoParts {
    /// A copy of the three parts and their name.
    pub fn duplicate(&self) -> (copy: DinoParts)
        ensures
            copy.body@ == self.body@,
            copy.mouth@ == self.mouth@,
            copy.eyes@ == self.eyes@,
            copy.name@ == self.name@,
    {
        DinoParts {
            body: self.body.clone(),
            mouth: self.mouth.clone(),
            eyes: self.eyes.clone(),
            name: self.name.clone(),
        }
    }
}

/// Spells the name of the three parts.
pub fn generate_dino_name(parts: &DinoParts) -> (name: String)
    requires
        parts.nameable(),
    ensures
        name@ == dino_name_of(parts.body@, parts.mouth@, parts.eyes@),
{
    let mut name = name_piece(parts.body.as_str(), PartKind::Body).unwrap();
    let mouth = name_piece(parts.mouth.as_str(), PartKind::Mouth).unwrap();
    let eyes = name_piece(parts.eyes.as_str(), PartKind::Eyes).unwrap();
    push_text(&mut name, mouth.as_str());
    push_text(&mut name, eyes.as_str());
    name
}

/// The paths among `paths` that are parts of `kind`, in their order.
pub open spec fn pool_of(paths: Seq<Seq<char>>, kind: PartKind) -> Seq<Seq<char>>
    decreases paths.len(),
{
    if paths.len() == 0 {
        Seq::empty()
    } else if kind_of_path(paths.last()) == Some(kind) {
        pool_of(paths.drop_last(), kind).push(paths.last())
    } else {
        pool_of(paths.drop_last(), kind)
    }
}

/// Whether `path` is a part that cannot give its share of a name.
pub open spec fn unusable(path: Seq<char>) -> bool {
    kind_of_path(path) matches Some(kind) && !nameable(path, kind)
}

/// Why a list of files gives no pools to draw from.
#[derive(Debug, Clone, Copy, PartialEq, Eq, Structural)]
pub enum SetupError {
    /// The file at `index` is a part by its marker, but too short or cut
    /// inside a character where the name takes its share.
    BadFragment { index: usize },
    /// No file is a part of `kind`.
    EmptyPool { kind: PartKind },
}

/// The pools of parts that creatures are drawn from, fixed once loaded.
pub struct Fragments {
    bodies: Vec<String>,
    mouths: Vec<String>,
    eyes: Vec<String>,
}

impl Fragments {
    /// The paths of the parts of `kind`.
    pub closed spec fn pool(&self, kind: PartKind) -> Seq<Seq<char>> {
        match kind {
            PartKind::Body => self.bodies.deep_view(),
            PartKind::Mouth => self.mouths.deep_view(),
            PartKind::Eyes => self.eyes.deep_view(),
        }
    }

    /// Whether the pool of `kind` holds a part, and only parts of that kind
    /// that can give their share of a name.
    pub open spec fn pool_wf(&self, kind: PartKind) -> bool {
        &&& self.pool(kind).len() > 0
        &&& forall|i: int|
            0 <= i < self.pool(kind).len() ==> kind_of_path(#[trigger] self.pool(kind)[i]) == Some(
                kind,
            ) && nameable(self.pool(kind)[i], kind)
    }

    /// No pool is empty, and each holds parts of its own kind only.
    pub open spec fn wf(&self) -> bool {
        &&& self.pool_wf(PartKind::Body)
        &&& self.pool_wf(PartKind::Mouth)
        &&& self.pool_wf(PartKind::Eyes)
    }

    /// Whether the three parts come from the pools, each from that of its
    /// kind.
    pub open spec fn offers(&self, parts: DinoParts) -> bool {
        &&& self.pool(PartKind::Body).contains(parts.body@)
        &&& self.pool(PartKind::Mouth).contains(parts.mouth@)
        &&& self.pool(PartKind::Eyes).contains(parts.eyes@)
    }

    /// The paths of the parts of `kind`.
    pub fn paths(&self, kind: PartKind) -> (paths: &Vec<String>)
        ensures
            paths.deep_view() == self.pool(kind),
    {
        match kind {
            PartKind::Body => &self.bodies,
            PartKind::Mouth => &self.mouths,
            PartKind::Eyes => &self.eyes,
        }
    }
}

/// The answer of `setup_dinos` to a list of paths: the first unusable part
/// is an error, then the first empty pool, body before mouth before eyes.
pub open spec fn setup_error_of(paths: Seq<Seq<char>>) -> Option<SetupError> {
    if exists|i: int| 0 <= i < paths.len() && unusable(#[trigger] paths[i]) {
        let first = choose|i: int|
            0 <= i < paths.len() && unusable(#[trigger] paths[i]) && forall|j: int|
                0 <= j < i ==> !unusable(#[trigger] paths[j]);
        Some(SetupError::BadFragment { index: first as usize })
    } else if pool_of(paths, PartKind::Body).len() == 0 {
        Some(SetupError::EmptyPool { kind: PartKind::Body })
    } else if pool_of(paths, PartKind::Mouth).len() == 0 {
        Some(SetupError::EmptyPool { kind: PartKind::Mouth })
    } else if pool_of(paths, PartKind::Eyes).len() == 0 {
        Some(SetupError::EmptyPool { kind: PartKind::Eyes })
    } else {
        None
    }
}

/// Every path in the pool of `kind` is one of `paths` and a part of that
/// kind.
pub proof fn lemma_pool_members(paths: Seq<Seq<char>>, kind: PartKind, i: int)
    requires
        0 <= i < pool_of(paths, kind).len(),
    ensures
        kind_of_path(pool_of(paths, kind)[i]) == Some(kind),
        paths.contains(pool_of(paths, kind)[i]),
    decreases paths.len(),
{
    if paths.len() > 0 {
        let rest = pool_of(paths.drop_last(), kind);
        if i < rest.len() {
            lemma_pool_members(paths.drop_last(), kind, i);
            let k = choose|k: int|
                0 <= k < paths.drop_last().len() && paths.drop_last()[k] == rest[i];
            assert(paths[k] == rest[i]);
        } else {
            assert(paths[paths.len() - 1] == paths.last());
        }
    }
}

/// Sorts the files at `paths` into the three pools, by the marker at the
/// end of each file stem. Files without a marker are passed over. A part
/// that cannot give its share of a name is refused, and so is a list that
/// leaves a pool empty.
pub fn setup_dinos(paths: &Vec<String>) -> (result: Result<Fragments, SetupError>)
    ensures
        match result {
            Ok(fragments) => {
                &&& setup_error_of(paths.deep_view()) is None
                &&& fragments.wf()
                &&& forall|kind: PartKind| #[trigger]
                    fragments.pool(kind) == pool_of(paths.deep_view(), kind)
            },
            Err(error) => setup_error_of(paths.deep_view()) == Some(error),
        },
{
    let ghost all = paths.deep_view();
    let mut bodies: Vec<String> = Vec::new();
    let mut mouths: Vec<String> = Vec::new();
    let mut eyes: Vec<String> = Vec::new();
    let mut i: usize = 0;
    assert(all.take(0) =~= Seq::<Seq<char>>::empty());
    while i < paths.len()
        invariant
            i <= paths.len(),
            all == paths.deep_view(),
            forall|j: int| 0 <= j < i ==> !unusable(#[trigger] all[j]),
            bodies.deep_view() == pool_of(all.take(i as int), PartKind::Body),
            mouths.deep_view() == pool_of(all.take(i as int), PartKind::Mouth),
            eyes.deep_view() == pool_of(all.take(i as int), PartKind::Eyes),
        decreases paths.len() - i,
    {
        let path = &paths[i];
        let ghost before = all.take(i as int);
        let ghost upto = all.take(i + 1);
        assert(upto.drop_last() =~= before);
        assert(upto.last() == all[i as int]);
        assert(all[i as int] == path@);
        match classify(path.as_str()) {
            None => {},
            Some(kind) => {
                if name_piece(path.as_str(), kind).is_none() {
                    assert(unusable(all[i as int]));
                    return Err(SetupError::BadFragment { index: i });
                }
                let ghost old_bodies = bodies.deep_view();
                let ghost old_mouths = mouths.deep_view();
                let ghost old_eyes = eyes.deep_view();
                match kind {
                    PartKind::Body => {
                        bodies.push(path.clone());
                        assert(bodies.deep_view() =~= old_bodies.push(path@));
                    },
                    PartKind::Mouth => {
                        mouths.push(path.clone());
                        assert(mouths.deep_view() =~= old_mouths.push(path@));
                    },
                    PartKind::Eyes => {
                        eyes.push(path.clone());
                        assert(eyes.deep_view() =~= old_eyes.push(path@));
                    },
                }
            },
        }
        i += 1;
    }
    assert(all.take(i as int) =~= all);
    if bodies.len() == 0 {
        return Err(SetupError::EmptyPool { kind: PartKind::Body });
    }
    if mouths.len() == 0 {
        return Err(SetupError::EmptyPool { kind: PartKind::Mouth });
    }
    if eyes.len() == 0 {
        return Err(SetupError::EmptyPool { kind: PartKind::Eyes });
    }
    let fragments = Fragments { bodies, mouths, eyes };
    proof {
        assert forall|kind: PartKind| #[trigger] fragments.pool(kind) == pool_of(all, kind) by {}
        assert forall|kind: PartKind| #[trigger] fragments.pool_wf(kind) by {
            assert forall|k: int| 0 <= k < fragments.pool(kind).len() implies kind_of_path(
                #[trigger] fragments.pool(kind)[k],
            ) == Some(kind) && nameable(fragments.pool(kind)[k], kind) by {
                lemma_pool_members(all, kind, k);
                let path = fragments.pool(kind)[k];
                let at = choose|at: int| 0 <= at < all.len() && all[at] == path;
                assert(!unusable(all[at]));
            }
        }
    }
    Ok(fragments)
}

/// Draws one part of each kind from the pools, and spells their name.
pub fn choose_parts(fragments: &Fragments) -> (parts: DinoParts)
    requires
        fragments.wf(),
    ensures
        fragments.offers(parts),
        parts.named(),
{
    let body = pick_part(fragments, PartKind::Body);
    let mouth = pick_part(fragments, PartKind::Mouth);
    let eyes = pick_part(fragments, PartKind::Eyes);
    let mut parts = DinoParts { body, mouth, eyes, name: String::new() };
    parts.name = generate_dino_name(&parts);
    parts
}

/// Draws one part of `kind` from its pool.
fn pick_part(fragments: &Fragments, kind: PartKind) -> (path: String)
    requires
        fragments.pool_wf(kind),
    ensures
        fragments.pool(kind).contains(path@),
        nameable(path@, kind),
        kind_of_path(path@) == Some(kind),
{
    let pool = fragments.paths(kind);
    assert(pool.len() == fragments.pool(kind).len());
    let drawn = choose_from(pool).unwrap();
    proof {
        let i = choose|i: int| 0 <= i < pool.len() && pool@[i] == *drawn;
        assert(fragments.pool(kind)[i] == drawn@);
    }
    drawn.clone()
}

/// The three pools share no part: a path is in the pool of its own kind
/// at most.
pub proof fn lemma_pools_are_disjoint(
    fragments: Fragments,
    path: Seq<char>,
    one: PartKind,
    other: PartKind,
)
    requires
        fragments.wf(),
        fragments.pool(one).contains(path),
        fragments.pool(other).contains(path),
    ensures
        one == other,
{
    let i = choose|i: int| 0 <= i < fragments.pool(one).len() && fragments.pool(one)[i] == path;
    let j = choose|j: int|
        0 <= j < fragments.pool(other).len() && fragments.pool(other)[j] == path;
    assert(kind_of_path(fragments.pool(one)[i]) == Some(one));
    assert(kind_of_path(fragments.pool(other)[j]) == Some(other));
}

} // verus!
