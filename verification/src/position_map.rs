//! Bidirectional position mapping between `.rts` sources and generated `.rs` files.
//!
//! The emitter records, for each generated `.rs` line, the `.rts` span it came
//! from. Positions are translated at line granularity; columns are kept.

use std::collections::HashMap;
use std::path::PathBuf;

use tower_lsp::lsp_types::Url;
use vstd::prelude::*;

use crate::text::{
    byte_len, chars_of, ends_with_str, find_str, find_sub, find_sub_from, has_suffix, lemma_byte_len_take_mono,
    lemma_byte_len_take_step, push_all, push_str, slice_of, string_of
};

verus! {

broadcast use vstd::std_specs::hash::group_hash_axioms;

// ---------------------------------------------------------------------------
// Positions
// ---------------------------------------------------------------------------

/// A byte-offset span in a `.rts` source.
#[derive(Debug, Clone, Copy, PartialEq, Eq)]
pub struct Span {
    /// Offset of the first byte.
    pub start: u32,
    /// Offset one past the last byte.
    pub end: u32,
}

impl Span {
    /// Create a span from its byte offsets.
    pub fn new(start: u32, end: u32) -> (r: Span)
        ensures
            r.start == start,
            r.end == end,
    {
        Span { start, end }
    }
}

/// A zero-based line and column in a document.
#[derive(Debug, Clone, Copy, PartialEq, Eq)]
pub struct Position {
    /// Line number.
    pub line: u32,
    /// Column.
    pub character: u32,
}

/// A range between two positions.
#[derive(Debug, Clone, Copy, PartialEq, Eq)]
pub struct Range {
    /// Start position.
    pub start: Position,
    /// End position.
    pub end: Position,
}

// ---------------------------------------------------------------------------
// Line starts
// ---------------------------------------------------------------------------

/// Byte offsets of the line starts among the first `k` characters:
/// `0`, then the offset just after each `'\n'`, each cut to 32 bits.
pub open spec fn line_starts_upto(s: Seq<char>, k: int) -> Seq<u32>
    decreases k,
{
    if k <= 0 {
        seq![0u32]
    } else if s[k - 1] == '\n' {
        line_starts_upto(s, k - 1).push(byte_len(s.take(k)) as u32)
    } else {
        line_starts_upto(s, k - 1)
    }
}

/// Byte offsets of the line starts of `s`.
pub open spec fn line_starts(s: Seq<char>) -> Seq<u32> {
    line_starts_upto(s, s.len() as int)
}

/// Whether `s` is strictly increasing.
pub open spec fn strictly_increasing(s: Seq<u32>) -> bool {
    forall|i: int, j: int| 0 <= i < j < s.len() ==> s[i] < s[j]
}

/// Whether `s` is non-decreasing.
pub open spec fn nondecreasing(s: Seq<u32>) -> bool {
    forall|i: int, j: int| 0 <= i < j < s.len() ==> s[i] <= s[j]
}

/// Number of entries of `s` at most `x`.
pub open spec fn count_le(s: Seq<u32>, x: u32) -> nat
    decreases s.len(),
{
    if s.len() == 0 {
        0
    } else {
        count_le(s.drop_last(), x) + if s.last() <= x { 1nat } else { 0nat }
    }
}

/// Line of a byte offset given increasing line starts: the index of the last
/// start at or before it, or 0 when there is none; cut to 32 bits.
pub open spec fn line_of(starts: Seq<u32>, offset: u32) -> u32 {
    if count_le(starts, offset) == 0 {
        0
    } else {
        (count_le(starts, offset) - 1) as u32
    }
}

/// Entries of `line_starts_upto(s, k)` are offsets of newlines within `s.take(k)`.
proof fn lemma_line_starts_bounded(s: Seq<char>, k: int)
    requires
        0 <= k <= s.len(),
        byte_len(s) < 0x1_0000_0000,
    ensures
        strictly_increasing(line_starts_upto(s, k)),
        line_starts_upto(s, k)[0] == 0,
        line_starts_upto(s, k).len() >= 1,
        forall|j: int| 0 <= j < line_starts_upto(s, k).len() ==> #[trigger] line_starts_upto(s, k)[j]
            <= byte_len(s.take(k)),
    decreases k,
{
    lemma_byte_len_take_mono(s, k, s.len() as int);
    assert(s.take(s.len() as int) == s);
    if k > 0 {
        lemma_line_starts_bounded(s, k - 1);
        lemma_byte_len_take_step(s, k - 1);
        let p = line_starts_upto(s, k - 1);
        if s[k - 1] == '\n' {
            let v = byte_len(s.take(k));
            assert(v < 0x1_0000_0000);
            assert((v as u32) as nat == v);
            let q = p.push(v as u32);
            assert forall|i: int, j: int| 0 <= i < j < q.len() implies q[i] < q[j] by {
                if j == q.len() - 1 {
                    assert(q[i] == p[i]);
                    assert(p[i] <= byte_len(s.take(k - 1)));
                }
            }
        }
    }
}

/// The count of entries at most `x` is the boundary that separates them.
proof fn lemma_count_le_split(s: Seq<u32>, x: u32, i: int)
    requires
        0 <= i <= s.len(),
        forall|j: int| 0 <= j < i ==> #[trigger] s[j] <= x,
        forall|j: int| i <= j < s.len() ==> #[trigger] s[j] > x,
    ensures
        count_le(s, x) == i,
    decreases s.len(),
{
    if s.len() > 0 {
        if i == s.len() {
            lemma_count_le_split(s.drop_last(), x, i - 1);
        } else {
            lemma_count_le_split(s.drop_last(), x, i);
        }
    }
}

// ---------------------------------------------------------------------------
// Binary search
// ---------------------------------------------------------------------------

/// Binary search of `x` in a slice, as `<[u32]>::binary_search` documents
/// it: on a non-decreasing slice, `Ok` with the index of some entry equal to
/// `x`, or `Err` with the index at which `x` would be inserted keeping the
/// order. On other slices nothing is claimed, as std claims nothing.
fn binary_search_u32(s: &[u32], x: u32) -> (r: Result<usize, usize>)
    ensures
        nondecreasing(s@) ==> match r {
            Ok(i) => i < s@.len() && s@[i as int] == x,
            Err(i) => i <= s@.len() && (forall|j: int| 0 <= j < i ==> #[trigger] s@[j] < x) && (forall|
                j: int,
            |
                i <= j < s@.len() ==> #[trigger] s@[j] > x),
        },
{
    let mut lo: usize = 0;
    let mut hi: usize = s.len();
    while lo < hi
        invariant
            lo <= hi <= s@.len(),
            nondecreasing(s@) ==> forall|j: int| 0 <= j < lo ==> #[trigger] s@[j] < x,
            nondecreasing(s@) ==> forall|j: int| hi <= j < s@.len() ==> #[trigger] s@[j] > x,
        decreases hi - lo,
    {
        let mid = lo + (hi - lo) / 2;
        if s[mid] == x {
            return Ok(mid);
        } else if s[mid] < x {
            lo = mid + 1;
        } else {
            hi = mid;
        }
    }
    Err(lo)
}

// ---------------------------------------------------------------------------
// Line computations
// ---------------------------------------------------------------------------

/// Compute the byte offset of each line start in a source string.
pub fn compute_line_starts(source: &str) -> (r: Vec<u32>)
    ensures
        r@ == line_starts(source@),
{
    let v = chars_of(source);
    let mut starts: Vec<u32> = Vec::new();
    starts.push(0u32);
    let mut offset: u128 = 0;
    let mut k: usize = 0;
    while k < v.len()
        invariant
            k <= v.len(),
            v@ == source@,
            offset == byte_len(v@.take(k as int)),
            offset <= 4 * k,
            starts@ == line_starts_upto(v@, k as int),
        decreases v.len() - k,
    {
        let c = v[k];
        let w: u128 = if (c as u32) < 0x80 {
            1
        } else if (c as u32) < 0x800 {
            2
        } else if (c as u32) < 0x10000 {
            3
        } else {
            4
        };
        proof {
            lemma_byte_len_take_step(v@, k as int);
        }
        offset = offset + w;
        if c == '\n' {
            starts.push(offset as u32);
        }
        k = k + 1;
    }
    assert(v@.take(v.len() as int) == v@);
    starts
}

/// Find the 0-based line number for a byte offset given pre-computed line starts.
///
/// For strictly increasing starts this is the index of the last start at or
/// before `offset` (0 when there is none). For other slices the underlying
/// binary search gives no defined answer, and neither does this function.
pub fn offset_to_line(line_starts: &[u32], offset: u32) -> (r: u32)
    ensures
        strictly_increasing(line_starts@) ==> r == line_of(line_starts@, offset),
{
    let found = binary_search_u32(line_starts, offset);
    proof {
        if strictly_increasing(line_starts@) {
            assert(nondecreasing(line_starts@));
        }
    }
    match found {
        Ok(line) => {
            proof {
                if strictly_increasing(line_starts@) {
                    lemma_count_le_split(line_starts@, offset, line + 1);
                }
            }
            line as u32
        },
        Err(line) => {
            proof {
                if strictly_increasing(line_starts@) {
                    lemma_count_le_split(line_starts@, offset, line as int);
                }
            }
            (if line == 0 { 0 } else { line - 1 }) as u32
        },
    }
}

// ---------------------------------------------------------------------------
// The position map
// ---------------------------------------------------------------------------

/// Reverse line table built from a source map: each `.rts` line maps to the
/// first `.rs` line (among the first `k`) whose span starts on it.
pub open spec fn line_table_upto(sm: Seq<Option<Span>>, starts: Seq<u32>, k: int) -> Map<u32, u32>
    decreases k,
{
    if k <= 0 {
        Map::empty()
    } else {
        let m = line_table_upto(sm, starts, k - 1);
        match sm[k - 1] {
            Some(sp) => {
                let l = line_of(starts, sp.start);
                if m.contains_key(l) { m } else { m.insert(l, (k - 1) as u32) }
            },
            None => m,
        }
    }
}

/// Reverse line table of a source map over the given `.rts` text.
pub open spec fn line_table(sm: Seq<Option<Span>>, rts: Seq<char>) -> Map<u32, u32> {
    line_table_upto(sm, line_starts(rts), sm.len() as int)
}

/// Whether the `.rts` text is small enough (under 4 GiB) for its byte
/// offsets to fit the 32-bit spans.
pub open spec fn fits_offsets(rts: Seq<char>) -> bool {
    byte_len(rts) < 0x1_0000_0000
}

/// `.rts` position to `.rs` position: the line through the table, the column kept.
pub open spec fn rts_to_rs(sm: Seq<Option<Span>>, rts: Seq<char>, pos: Position) -> Option<Position> {
    let t = line_table(sm, rts);
    if t.contains_key(pos.line) {
        Some(Position { line: t[pos.line], character: pos.character })
    } else {
        None
    }
}

/// `.rs` position to `.rts` position: the line of the span's start, the column kept.
pub open spec fn rs_to_rts(sm: Seq<Option<Span>>, rts: Seq<char>, pos: Position) -> Option<Position> {
    let idx = pos.line as int;
    if idx < sm.len() && sm[idx] is Some {
        Some(
            Position {
                line: line_of(line_starts(rts), sm[idx]->0.start),
                character: pos.character,
            },
        )
    } else {
        None
    }
}

/// Bidirectional position map between `.rts` source lines and `.rs` generated lines.
///
/// Built from the emitter's source map, which maps each generated `.rs` line
/// to the `.rts` span it originated from. The reverse map is computed at
/// construction time.
pub struct PositionMap {
    /// Source map from emitter: `.rs` line index -> `.rts` span.
    rs_to_rts: Vec<Option<Span>>,
    /// Reverse map: `.rts` line -> `.rs` line (built from `rs_to_rts`).
    rts_to_rs: HashMap<u32, u32>,
    /// Original `.rts` source (for offset calculations).
    source_rts: String,
    /// Generated `.rs` source.
    source_generated: String,
}

impl PositionMap {
    /// The source map: `.rs` line index to `.rts` span.
    pub closed spec fn source_map(&self) -> Seq<Option<Span>> {
        self.rs_to_rts@
    }

    /// The `.rts` source text.
    pub closed spec fn rts_text(&self) -> Seq<char> {
        self.source_rts@
    }

    /// The generated `.rs` source text.
    pub closed spec fn rs_text(&self) -> Seq<char> {
        self.source_generated@
    }

    /// The stored reverse table agrees with the source map whenever the
    /// `.rts` offsets fit in 32 bits.
    #[verifier::type_invariant]
    spec fn table_matches(&self) -> bool {
        fits_offsets(self.source_rts@) ==> self.rts_to_rs@ == line_table(self.rs_to_rts@, self.source_rts@)
    }

    /// Create from an emitter source map.
    ///
    /// The `source_map` vector maps each generated `.rs` line (by index) to the
    /// `.rts` byte-offset span it originated from. The reverse map keeps, for
    /// each `.rts` line, the earliest `.rs` line whose span starts on it.
    pub fn new(source_map: Vec<Option<Span>>, rts_source: String, generated_source: String) -> (r: Self)
        ensures
            r.source_map() == source_map@,
            r.rts_text() == rts_source@,
            r.rs_text() == generated_source@,
    {
        let mut rts_to_rs: HashMap<u32, u32> = HashMap::new();
        let rts_line_starts = compute_line_starts(rts_source.as_str());
        let ghost starts = rts_line_starts@;
        proof {
            if fits_offsets(rts_source@) {
                lemma_line_starts_bounded(rts_source@, rts_source@.len() as int);
            }
        }
        let mut k: usize = 0;
        while k < source_map.len()
            invariant
                k <= source_map.len(),
                rts_line_starts@ == starts,
                starts == line_starts(rts_source@),
                fits_offsets(rts_source@) ==> strictly_increasing(starts),
                fits_offsets(rts_source@) ==> rts_to_rs@ == line_table_upto(source_map@, starts, k as int),
            decreases source_map.len() - k,
        {
            match source_map[k] {
                Some(span) => {
                    let rts_line = offset_to_line(&rts_line_starts, span.start);
                    if !rts_to_rs.contains_key(&rts_line) {
                        rts_to_rs.insert(rts_line, k as u32);
                    }
                },
                None => {},
            }
            k = k + 1;
        }
        PositionMap {
            rs_to_rts: source_map,
            rts_to_rs,
            source_rts: rts_source,
            source_generated: generated_source,
        }
    }

    /// Translate an `.rts` position to the corresponding `.rs` position.
    ///
    /// Returns `None` if the `.rts` line has no corresponding `.rs` line.
    /// Column is preserved as-is (line-level mapping).
    pub fn rts_to_rs_position(&self, pos: Position) -> (r: Option<Position>)
        ensures
            r matches Some(p) ==> p.character == pos.character,
            fits_offsets(self.rts_text()) ==> r == rts_to_rs(self.source_map(), self.rts_text(), pos),
    {
        proof {
            use_type_invariant(self);
        }
        match self.rts_to_rs.get(&pos.line) {
            Some(line) => Some(Position { line: *line, character: pos.character }),
            None => None,
        }
    }

    /// Translate an `.rs` position back to the corresponding `.rts` position.
    ///
    /// Returns `None` if the `.rs` line has no `.rts` origin (compiler-generated).
    pub fn rs_to_rts_position(&self, pos: Position) -> (r: Option<Position>)
        ensures
            r is Some <==> (pos.line < self.source_map().len() && self.source_map()[pos.line as int] is Some),
            r matches Some(p) ==> p.character == pos.character,
            fits_offsets(self.rts_text()) ==> r == rs_to_rts(self.source_map(), self.rts_text(), pos),
    {
        let idx = pos.line as usize;
        if idx >= self.rs_to_rts.len() {
            return None;
        }
        match self.rs_to_rts[idx] {
            Some(span) => {
                let rts_line_starts = compute_line_starts(self.source_rts.as_str());
                proof {
                    if fits_offsets(self.source_rts@) {
                        lemma_line_starts_bounded(self.source_rts@, self.source_rts@.len() as int);
                    }
                }
                let line = offset_to_line(&rts_line_starts, span.start);
                Some(Position { line, character: pos.character })
            },
            None => None,
        }
    }

    /// Translate an `.rs` range back to an `.rts` range.
    ///
    /// Translates both start and end positions independently. Returns `None`
    /// if either endpoint has no `.rts` mapping.
    pub fn rs_to_rts_range(&self, range: Range) -> (r: Option<Range>)
        ensures
            r is Some <==> (range.start.line < self.source_map().len() && self.source_map()[range.start.line as int] is Some
                && range.end.line < self.source_map().len() && self.source_map()[range.end.line as int] is Some),
            fits_offsets(self.rts_text()) ==> r == (match (
                rs_to_rts(self.source_map(), self.rts_text(), range.start),
                rs_to_rts(self.source_map(), self.rts_text(), range.end),
            ) {
                (Some(s), Some(e)) => Some(Range { start: s, end: e }),
                _ => None,
            }),
    {
        let start = match self.rs_to_rts_position(range.start) {
            Some(p) => p,
            None => return None,
        };
        let end = match self.rs_to_rts_position(range.end) {
            Some(p) => p,
            None => return None,
        };
        Some(Range { start, end })
    }

    /// Access the `.rts` source text.
    pub fn rts_source(&self) -> (r: &str)
        ensures
            r@ == self.rts_text(),
    {
        self.source_rts.as_str()
    }

    /// Access the generated `.rs` source text.
    pub fn rs_source(&self) -> (r: &str)
        ensures
            r@ == self.rs_text(),
    {
        self.source_generated.as_str()
    }
}

// ---------------------------------------------------------------------------
// Document URIs
// ---------------------------------------------------------------------------

#[verifier::external_type_specification]
#[verifier::external_body]
pub struct ExUrl(Url);

#[verifier::external_type_specification]
#[verifier::external_body]
pub struct ExPathBuf(PathBuf);

/// `Url::to_file_path` of the `url` crate: the local path that a `file:`
/// URL names, `None` where it names none. What the path is depends on the
/// platform; nothing is claimed of it.
#[verifier::external_body]
fn url_to_file_path(uri: &Url) -> (r: Option<PathBuf>) {
    match uri.to_file_path() {
        Ok(p) => Some(p),
        Err(_) => None,
    }
}

/// `Url::from_file_path` of the `url` crate: the `file:` URL of a path,
/// `None` where the platform does not take the path as absolute. Nothing
/// is claimed of the URL.
#[verifier::external_body]
fn url_from_file_path(path: &PathBuf) -> (r: Option<Url>) {
    match Url::from_file_path(path) {
        Ok(u) => Some(u),
        Err(_) => None,
    }
}

/// `Path::to_str` of std: the path as UTF-8 text, `None` where it is not
/// valid UTF-8. Nothing is claimed of the text.
#[verifier::external_body]
fn path_text(path: &PathBuf) -> (r: Option<String>) {
    match path.to_str() {
        Some(t) => Some(t.to_owned()),
        None => None,
    }
}

/// `PathBuf::from` of std on text.
#[verifier::external_body]
fn path_of_text(text: &str) -> (r: PathBuf) {
    PathBuf::from(text)
}

/// `Path::parent` of std: the path without its last component, `None` for
/// a root or an empty path. Nothing is claimed of the result.
#[verifier::external_body]
fn path_parent(path: &PathBuf) -> (r: Option<PathBuf>) {
    match path.parent() {
        Some(p) => Some(p.to_path_buf()),
        None => None,
    }
}

/// `Path::file_stem` of std, as UTF-8 text: the last component without its
/// extension; `None` when there is none or it is not valid UTF-8. Nothing
/// is claimed of the text.
#[verifier::external_body]
fn path_file_stem(path: &PathBuf) -> (r: Option<String>) {
    match path.file_stem() {
        Some(s) => match s.to_str() {
            Some(t) => Some(t.to_owned()),
            None => None,
        },
        None => None,
    }
}

/// `Path::join` of std: `part` appended to `path` as a further component.
/// Nothing is claimed of the result.
#[verifier::external_body]
fn path_join(path: &PathBuf, part: &str) -> (r: PathBuf) {
    path.join(part)
}

/// The directory, below a project, that holds the generated sources.
pub open spec fn build_src_marker() -> Seq<char> {
    ".rsc-build/src/"@
}

/// The `.rts` path of a generated `.rs` path `<project>.rsc-build/src/<stem>.rs`:
/// `<project><stem>.rts`. `None` without the marker or the `.rs` suffix.
pub open spec fn rts_path_of(path: Seq<char>) -> Option<Seq<char>> {
    match find_sub(path, build_src_marker()) {
        None => None,
        Some(idx) => {
            let file = path.skip(idx + 15);
            if has_suffix(file, ".rs"@) {
                Some(path.take(idx) + file.take(file.len() - 3) + ".rts"@)
            } else {
                None
            }
        },
    }
}

/// The `.rts` path of a generated `.rs` path.
pub fn rts_path_for_rs_path(path: &str) -> (r: Option<String>)
    ensures
        opt_string(r) == rts_path_of(path@),
{
    let p = chars_of(path);
    proof {
        reveal_strlit(".rsc-build/src/");
        reveal_strlit(".rs");
    }
    let idx = match find_str(&p, ".rsc-build/src/") {
        Some(i) => i,
        None => return None,
    };
    let plen = p.len();
    assert(".rsc-build/src/"@.len() == 15);
    assert(idx + 15 <= plen);
    let file = slice_of(&p, idx + 15, plen);
    if !ends_with_str(&file, ".rs") {
        return None;
    }
    assert(".rs"@.len() == 3);
    let mut out = slice_of(&p, 0, idx);
    let stem = slice_of(&file, 0, file.len() - 3);
    push_all(&mut out, &stem);
    push_str(&mut out, ".rts");
    Some(string_of(&out))
}

/// The name of the generated `.rs` file for a `.rts` file stem.
pub fn rs_file_name(stem: &str) -> (r: String)
    ensures
        r@ == stem@ + ".rs"@,
{
    let mut out = chars_of(stem);
    push_str(&mut out, ".rs");
    string_of(&out)
}

/// The path segments that lead from the directory of a `.rts` file to its
/// generated `.rs` file: `.rsc-build`, `src`, and `<stem>.rs`.
pub fn rs_path_segments(stem: &str) -> (r: (String, String, String))
    ensures
        r.0@ == ".rsc-build"@,
        r.1@ == "src"@,
        r.2@ == stem@ + ".rs"@,
{
    let build = string_of(&chars_of(".rsc-build"));
    let src = string_of(&chars_of("src"));
    (build, src, rs_file_name(stem))
}

/// The characters of an optional string.
pub open spec fn opt_string(o: Option<String>) -> Option<Seq<char>> {
    match o {
        Some(s) => Some(s@),
        None => None,
    }
}

impl PositionMap {
    /// Translate an `.rts` URI to the corresponding `.rs` URI in `.rsc-build/`:
    /// `file:///path/to/file.rts` becomes `file:///path/to/.rsc-build/src/file.rs`.
    ///
    /// `None` where the URI names no local file, the path has no parent or
    /// stem, or the new path makes no URL.
    pub fn rts_to_rs_uri(&self, uri: &Url) -> (r: Option<Url>) {
        let path = match url_to_file_path(uri) {
            Some(p) => p,
            None => return None,
        };
        let parent = match path_parent(&path) {
            Some(p) => p,
            None => return None,
        };
        let stem = match path_file_stem(&path) {
            Some(s) => s,
            None => return None,
        };
        let (build_dir, src_dir, file) = rs_path_segments(stem.as_str());
        let build = path_join(&parent, build_dir.as_str());
        let src = path_join(&build, src_dir.as_str());
        let rs_path = path_join(&src, file.as_str());
        url_from_file_path(&rs_path)
    }

    /// Translate an `.rs` URI back to the corresponding `.rts` URI:
    /// `file:///path/to/.rsc-build/src/file.rs` becomes `file:///path/to/file.rts`.
    ///
    /// `None` where the URI names no local file with a UTF-8 path, the path
    /// lacks `.rsc-build/src/` or the `.rs` suffix (see `rts_path_of`), or
    /// the new path makes no URL.
    pub fn rs_to_rts_uri(&self, uri: &Url) -> (r: Option<Url>) {
        let path = match url_to_file_path(uri) {
            Some(p) => p,
            None => return None,
        };
        let text = match path_text(&path) {
            Some(t) => t,
            None => return None,
        };
        let rts = match rts_path_for_rs_path(text.as_str()) {
            Some(t) => t,
            None => return None,
        };
        let rts_path = path_of_text(rts.as_str());
        url_from_file_path(&rts_path)
    }
}

/// Every entry of the reverse table names an earlier `.rs` line whose span
/// starts on that `.rts` line.
proof fn lemma_line_table_entry(sm: Seq<Option<Span>>, starts: Seq<u32>, k: int, l: u32)
    requires
        0 <= k <= sm.len(),
        line_table_upto(sm, starts, k).contains_key(l),
    ensures
        ({
            let r = line_table_upto(sm, starts, k)[l];
            exists|i: int|
                0 <= i < k && r == i as u32 && #[trigger] sm[i] is Some && line_of(starts, sm[i]->0.start) == l
        }),
    decreases k,
{
    let m = line_table_upto(sm, starts, k - 1);
    if m.contains_key(l) {
        lemma_line_table_entry(sm, starts, k - 1, l);
        let r = m[l];
        let i = choose|i: int|
            0 <= i < k - 1 && r == i as u32 && #[trigger] sm[i] is Some && line_of(starts, sm[i]->0.start) == l;
        assert(0 <= i < k && r == i as u32 && sm[i] is Some && line_of(starts, sm[i]->0.start) == l);
    } else {
        let i = k - 1;
        assert(sm[i] is Some && line_of(starts, sm[i]->0.start) == l);
    }
}

/// No occurrence of `p` in `s` starts at or after `i` when none is found.
proof fn lemma_find_sub_none(s: Seq<char>, p: Seq<char>, i: int, k: int)
    requires
        0 <= i <= k,
        k + p.len() <= s.len(),
        find_sub_from(s, p, i) is None,
    ensures
        s.subrange(k, k + p.len()) != p,
    decreases k - i,
{
    if i < k {
        lemma_find_sub_none(s, p, i + 1, k);
    }
}

/// The first occurrence of `p` from `i` on is at `j` when it occurs at `j`
/// and at no index between.
proof fn lemma_find_sub_first(s: Seq<char>, p: Seq<char>, i: int, j: int)
    requires
        0 <= i <= j,
        j + p.len() <= s.len(),
        s.subrange(j, j + p.len()) == p,
        forall|k: int| i <= k < j ==> #[trigger] s.subrange(k, k + p.len()) != p,
    ensures
        find_sub_from(s, p, i) == Some(j),
    decreases j - i,
{
    if i < j {
        lemma_find_sub_first(s, p, i + 1, j);
    }
}

/// Path text round trip: the generated path `<dir>/.rsc-build/src/<stem>.rs`
/// maps back to `<dir>/<stem>.rts`, where `<dir>/` holds no `.rsc-build/src/`.
pub proof fn lemma_rts_path_round_trip(dir: Seq<char>, stem: Seq<char>)
    requires
        find_sub(dir + "/"@, build_src_marker()) is None,
    ensures
        rts_path_of(dir + "/"@ + build_src_marker() + stem + ".rs"@) == Some(dir + "/"@ + stem + ".rts"@),
{
    reveal_strlit(".rsc-build/src/");
    reveal_strlit("/");
    reveal_strlit(".rs");
    reveal_strlit(".rts");
    let d = dir + "/"@;
    let m = build_src_marker();
    let path = d + m + stem + ".rs"@;
    let n = d.len() as int;
    assert(m.len() == 15);
    assert forall|t: int| 0 <= t < 15 implies #[trigger] path[n + t] == m[t] by {}
    assert forall|k: int| 0 <= k < n implies #[trigger] path.subrange(k, k + 15) != m by {
        if k + 15 <= n {
            lemma_find_sub_none(d, m, 0, k);
            assert(path.subrange(k, k + 15) =~= d.subrange(k, k + 15));
        } else {
            if path.subrange(k, k + 15) == m {
                let o = n - k;
                assert(1 <= o <= 14);
                // The marker's last character `/` would fall on its own index 14 - o.
                assert(path[k + 14] == m[14]);
                assert(path[n + (14 - o)] == m[14 - o]);
                assert(m[14 - o] == '/');
                assert(o == 4);
                assert(path[k + 4] == m[4]);
                assert(path[n + 0] == m[0]);
                assert(false);
            }
        }
    }
    assert(path.subrange(n, n + 15) =~= m);
    lemma_find_sub_first(path, m, 0, n);
    let file = path.skip(n + 15);
    assert(file =~= stem + ".rs"@);
    assert(file.skip(file.len() - 3) =~= ".rs"@);
    assert(has_suffix(file, ".rs"@));
    assert(file.take(file.len() - 3) =~= stem);
    assert(path.take(n) =~= d);
    assert(path.take(n) + file.take(file.len() - 3) + ".rts"@ =~= d + stem + ".rts"@);
}

/// The span of `.rs` line `i` starts on `.rts` line `l`.
pub open spec fn starts_on_line(sm: Seq<Option<Span>>, starts: Seq<u32>, i: int, l: u32) -> bool {
    0 <= i < sm.len() && sm[i] is Some && line_of(starts, sm[i]->0.start) == l
}

/// The table of the first `k` lines has an entry for `l` exactly when one of
/// them starts on `l`, and the entry is the earliest such line.
proof fn lemma_line_table_earliest(sm: Seq<Option<Span>>, starts: Seq<u32>, k: int, l: u32)
    requires
        0 <= k <= sm.len(),
        k <= 0x1_0000_0000,
    ensures
        line_table_upto(sm, starts, k).contains_key(l) <==> exists|i: int|
            0 <= i < k && #[trigger] starts_on_line(sm, starts, i, l),
        line_table_upto(sm, starts, k).contains_key(l) ==> {
            let r = line_table_upto(sm, starts, k)[l] as int;
            &&& r < k
            &&& starts_on_line(sm, starts, r, l)
            &&& forall|j: int| 0 <= j < r ==> !#[trigger] starts_on_line(sm, starts, j, l)
        },
    decreases k,
{
    if k > 0 {
        lemma_line_table_earliest(sm, starts, k - 1, l);
        let m = line_table_upto(sm, starts, k - 1);
        if !m.contains_key(l) && starts_on_line(sm, starts, k - 1, l) {
            assert(line_table_upto(sm, starts, k)[l] == (k - 1) as u32);
        }
        if m.contains_key(l) {
            let i = choose|i: int| 0 <= i < k - 1 && #[trigger] starts_on_line(sm, starts, i, l);
            assert(0 <= i < k && starts_on_line(sm, starts, i, l));
        }
    }
}

/// The earliest `.rs` line wins: an `.rts` position maps to the first
/// generated line whose span starts on its line, with the column kept, and
/// to nothing where no span starts on it (for a generated file of at most
/// 2^32 lines, so that line indices fit in a `u32`).
pub proof fn lemma_earliest_rs_line(sm: Seq<Option<Span>>, rts: Seq<char>, pos: Position)
    requires
        sm.len() <= 0x1_0000_0000,
    ensures
        rts_to_rs(sm, rts, pos) is None <==> forall|i: int|
            0 <= i < sm.len() ==> !#[trigger] starts_on_line(sm, line_starts(rts), i, pos.line),
        rts_to_rs(sm, rts, pos) matches Some(q) ==> {
            &&& q.character == pos.character
            &&& starts_on_line(sm, line_starts(rts), q.line as int, pos.line)
            &&& forall|j: int| 0 <= j < q.line ==> !#[trigger] starts_on_line(sm, line_starts(rts), j, pos.line)
        },
{
    lemma_line_table_earliest(sm, line_starts(rts), sm.len() as int, pos.line);
}

/// Round trip: an `.rts` position that maps to an `.rs` position maps back
/// to itself (line and column), whenever the generated file has at most
/// 2^32 lines so that line indices fit in a `u32`.
pub proof fn lemma_position_roundtrip(sm: Seq<Option<Span>>, rts: Seq<char>, pos: Position)
    requires
        sm.len() <= 0x1_0000_0000,
        rts_to_rs(sm, rts, pos) is Some,
    ensures
        rs_to_rts(sm, rts, rts_to_rs(sm, rts, pos)->0) == Some(pos),
{
    let starts = line_starts(rts);
    lemma_line_table_entry(sm, starts, sm.len() as int, pos.line);
    let r = line_table(sm, rts)[pos.line];
    let i = choose|i: int|
        0 <= i < sm.len() && r == i as u32 && #[trigger] sm[i] is Some && line_of(starts, sm[i]->0.start)
            == pos.line;
    assert(r as int == i);
}

} // verus!
