use vstd::prelude::*;

use crate::error::Error;
use crate::gvalue::{
    envelope_failure,
    decode_seq, lemma_decode_seq_encoded, lemma_decode_seq_prefix, lemma_decode_seq_step,
    lemma_items_model, lemma_models_push, make_array, make_struct, make_variant, models_of,
    unvariant, unvariant_ref, unwrap_model, unwrap_serializable, wrap_model, wrap_serializable,
    GModel, GValue, Outcome, Unwrapped,
};
use crate::text::{
    encode_text_elem, law_text_roundtrip, text_decoder, with_end_cursor, Text, TextModel,
};

verus! {

/// Orientation of the lookup table in the IBus panel.
#[derive(Debug, Clone, Copy, PartialEq, Eq, Structural)]
pub enum LookupOrientation {
    /// Horizontal layout.
    Horizontal,
    /// Vertical layout.
    Vertical,
    /// System default orientation.
    System,
}

/// The protocol number of an orientation.
pub open spec fn orientation_code(o: LookupOrientation) -> u32 {
    match o {
        LookupOrientation::Horizontal => 0,
        LookupOrientation::Vertical => 1,
        LookupOrientation::System => 2,
    }
}

/// The orientation with the given protocol number, if any.
pub open spec fn orientation_of(v: int) -> Option<LookupOrientation> {
    if v == 0 {
        Some(LookupOrientation::Horizontal)
    } else if v == 1 {
        Some(LookupOrientation::Vertical)
    } else if v == 2 {
        Some(LookupOrientation::System)
    } else {
        None
    }
}

impl LookupOrientation {
    /// The protocol number of this orientation.
    pub fn to_u32(self) -> (r: u32)
        ensures
            r == orientation_code(self),
    {
        match self {
            LookupOrientation::Horizontal => 0,
            LookupOrientation::Vertical => 1,
            LookupOrientation::System => 2,
        }
    }

    /// The orientation numbered `v`, or `None` outside 0..=2.
    pub fn from_i32(v: i32) -> (r: Option<LookupOrientation>)
        ensures
            r == orientation_of(v as int),
    {
        match v {
            0 => Some(LookupOrientation::Horizontal),
            1 => Some(LookupOrientation::Vertical),
            2 => Some(LookupOrientation::System),
            _ => None,
        }
    }

    /// The orientation numbered `v` (read as a signed 32-bit number), or `None` outside 0..=2.
    pub fn from_u32(v: u32) -> (r: Option<LookupOrientation>)
        ensures
            r == orientation_of(v as int),
    {
        let w = #[verifier::truncate] (v as i32);
        assert(v < 3 ==> w == v) by (bit_vector) requires w == v as i32;
        assert(v >= 3 ==> w >= 3 || w < 0) by (bit_vector) requires w == v as i32;
        Self::from_i32(w)
    }

    /// The orientation numbered `v`, vertical when `v` names none.
    pub fn from_u32_or_vertical(v: u32) -> (r: LookupOrientation)
        ensures
            r == (match orientation_of(v as int) {
                Some(o) => o,
                None => LookupOrientation::Vertical,
            }),
    {
        match Self::from_u32(v) {
            Some(o) => o,
            None => LookupOrientation::Vertical,
        }
    }
}

/// A set of conversion candidates displayed in the IBus panel, with paging
/// and a cursor.
#[derive(Debug)]
pub struct LookupTable {
    candidates: Vec<Text>,
    labels: Vec<Text>,
    paging: Paging,
    cursor_visible: bool,
    round: bool,
    orientation: i32,
}

/// The cursor and the page geometry of a lookup table. Whenever pages are
/// non-empty, the in-page position is the cursor modulo the page size.
#[derive(Debug)]
struct Paging {
    cursor_pos: u32,
    page_size: u32,
    cursor_pos_in_page: u32,
}

impl Paging {
    #[verifier::type_invariant]
    spec fn in_page_follows_cursor(self) -> bool {
        self.page_size > 0 ==> self.cursor_pos_in_page == self.cursor_pos % self.page_size
    }

    /// The cursor at `cursor_pos` on pages of `page_size`; the in-page
    /// position is recomputed when the page size is positive, and is
    /// `in_page` otherwise.
    fn at(cursor_pos: u32, page_size: u32, in_page: u32) -> (p: Paging)
        ensures
            p.cursor_pos == cursor_pos,
            p.page_size == page_size,
            p.cursor_pos_in_page == (if page_size > 0 { (cursor_pos % page_size) as u32 } else { in_page }),
    {
        let cursor_pos_in_page = if page_size > 0 { cursor_pos % page_size } else { in_page };
        Paging { cursor_pos, page_size, cursor_pos_in_page }
    }

    /// A copy.
    fn duplicate(&self) -> (p: Paging)
        ensures
            p == *self,
    {
        proof {
            use_type_invariant(self);
        }
        Paging {
            cursor_pos: self.cursor_pos,
            page_size: self.page_size,
            cursor_pos_in_page: self.cursor_pos_in_page,
        }
    }
}

/// The mathematical content of a [`LookupTable`].
pub struct LookupModel {
    pub candidates: Seq<TextModel>,
    pub labels: Seq<TextModel>,
    pub cursor_pos: u32,
    pub cursor_visible: bool,
    pub round: bool,
    pub orientation: i32,
    pub page_size: u32,
    pub cursor_pos_in_page: u32,
}

/// The models of a sequence of texts.
pub open spec fn texts_model(s: Seq<Text>) -> Seq<TextModel> {
    s.map_values(|t: Text| t@)
}

impl View for LookupTable {
    type V = LookupModel;

    closed spec fn view(&self) -> LookupModel {
        LookupModel {
            candidates: texts_model(self.candidates@),
            labels: texts_model(self.labels@),
            cursor_pos: self.paging.cursor_pos,
            cursor_visible: self.cursor_visible,
            round: self.round,
            orientation: self.orientation,
            page_size: self.paging.page_size,
            cursor_pos_in_page: self.paging.cursor_pos_in_page,
        }
    }
}

impl LookupModel {
    /// A fresh table: no candidates, five per page, cursor visible, system orientation.
    pub open spec fn empty() -> LookupModel {
        LookupModel {
            candidates: Seq::empty(),
            labels: Seq::empty(),
            cursor_pos: 0,
            cursor_visible: true,
            round: false,
            orientation: 2,
            page_size: 5,
            cursor_pos_in_page: 0,
        }
    }

    /// The candidate count as the table reports it (a 32-bit number).
    pub open spec fn num(self) -> u32 {
        self.candidates.len() as u32
    }

    /// The same table with the cursor at `pos`; the in-page position follows
    /// when the page size is positive.
    pub open spec fn with_cursor(self, pos: u32) -> LookupModel {
        LookupModel {
            cursor_pos: pos,
            cursor_pos_in_page: if self.page_size > 0 {
                (pos % self.page_size) as u32
            } else {
                self.cursor_pos_in_page
            },
            ..self
        }
    }

    /// Well-formed tables: the candidate count fits in 32 bits, pages are
    /// non-empty, the in-page position is the cursor modulo the page size,
    /// and the cursor designates a candidate (or is 0 on an empty list).
    pub open spec fn wf(self) -> bool {
        &&& self.candidates.len() <= u32::MAX
        &&& self.page_size > 0
        &&& self.cursor_pos_in_page == self.cursor_pos % self.page_size
        &&& self.cursor_valid()
    }

    /// The cursor designates a candidate, or the list is empty and the cursor is 0.
    pub open spec fn cursor_valid(self) -> bool {
        self.cursor_pos < self.candidates.len() || self.cursor_pos == 0
    }

    /// Whether the in-page position is the cursor modulo the page size (when
    /// pages are non-empty).
    pub open spec fn in_page_follows_cursor(self) -> bool {
        self.page_size > 0 ==> self.cursor_pos_in_page == self.cursor_pos % self.page_size
    }

    /// Index of the first candidate of the page that holds position `pos`.
    pub open spec fn page_base(self, pos: int) -> int {
        (pos / self.page_size as int) * self.page_size
    }

    /// Index of the first candidate of the last page (0 on an empty list).
    pub open spec fn last_page_start(self) -> int {
        if self.num() > 0 {
            self.page_base(self.num() - 1)
        } else {
            0
        }
    }

    /// Result of moving one page up: the new table and whether the call
    /// reported success. On the first page with wrapping on, the cursor goes
    /// to the same place on the last page, or to the last candidate when that
    /// page is shorter.
    pub open spec fn page_up(self) -> (LookupModel, bool) {
        if self.cursor_pos >= self.page_size {
            (self.with_cursor((self.cursor_pos - self.page_size) as u32), true)
        } else if self.round && self.page_size > 0 {
            if self.num() > 0 {
                let target = self.last_page_start() + self.cursor_pos;
                if target < self.num() - 1 {
                    (self.with_cursor(target as u32), true)
                } else {
                    (self.with_cursor((self.num() - 1) as u32), true)
                }
            } else {
                (self, true)
            }
        } else {
            (self, false)
        }
    }

    /// Result of moving one page down: when a next page exists the cursor goes
    /// to the same place on it, or to the last candidate when that page is
    /// shorter; on the last page it wraps to 0 when wrapping is on.
    pub open spec fn page_down(self) -> (LookupModel, bool) {
        if self.page_size == 0 {
            (self, false)
        } else if self.page_base(self.cursor_pos as int) + self.page_size < self.num() {
            if self.cursor_pos + self.page_size < self.num() {
                (self.with_cursor((self.cursor_pos + self.page_size) as u32), true)
            } else {
                (self.with_cursor((self.num() - 1) as u32), true)
            }
        } else if self.round {
            (self.with_cursor(0), true)
        } else {
            (self, false)
        }
    }

    /// Result of moving the cursor up by one candidate.
    pub open spec fn cursor_up(self) -> (LookupModel, bool) {
        if self.cursor_pos > 0 {
            (self.with_cursor((self.cursor_pos - 1) as u32), true)
        } else if self.round && self.candidates.len() > 0 {
            (self.with_cursor((self.num() - 1) as u32), true)
        } else {
            (self, false)
        }
    }

    /// Result of moving the cursor down by one candidate.
    pub open spec fn cursor_down(self) -> (LookupModel, bool) {
        if self.cursor_pos + 1 < self.num() {
            (self.with_cursor((self.cursor_pos + 1) as u32), true)
        } else if self.round && self.candidates.len() > 0 {
            (self.with_cursor(0), true)
        } else {
            (self, false)
        }
    }

    /// Result of setting the absolute cursor position (clamped to the list).
    pub open spec fn set_cursor_pos(self, pos: u32) -> LookupModel {
        if pos < self.num() {
            self.with_cursor(pos)
        } else if self.candidates.len() > 0 {
            self.with_cursor((self.num() - 1) as u32)
        } else {
            self.with_cursor(0)
        }
    }

    /// Result of replacing the candidate list.
    pub open spec fn set_candidates(self, candidates: Seq<TextModel>) -> LookupModel {
        let t = LookupModel { candidates, ..self };
        if self.cursor_pos >= t.num() {
            t.with_cursor(0)
        } else {
            t.with_cursor(self.cursor_pos)
        }
    }

    /// Result of setting the page size.
    pub open spec fn set_page_size(self, size: u32) -> LookupModel {
        LookupModel { page_size: size, ..self }.with_cursor(self.cursor_pos)
    }

    /// Result of setting the position within the current page; refused
    /// unless the page has a candidate at that position.
    pub open spec fn set_cursor_pos_in_page(self, pos: u32) -> LookupModel {
        if self.page_size > 0 && pos < self.page_size && self.page_base(self.cursor_pos as int) + pos < self.num() {
            LookupModel {
                cursor_pos: (self.page_base(self.cursor_pos as int) + pos) as u32,
                cursor_pos_in_page: pos,
                ..self
            }
        } else {
            self
        }
    }

    /// Index of the first candidate of the cursor's page.
    pub open spec fn page_start(self) -> int {
        self.cursor_pos - self.cursor_pos_in_page
    }

    /// One past the last candidate of the cursor's page.
    pub open spec fn page_end(self) -> int {
        if self.page_start() + self.page_size < self.candidates.len() {
            self.page_start() + self.page_size
        } else {
            self.candidates.len() as int
        }
    }
}

impl LookupTable {
    /// Create an empty lookup table (five candidates per page, cursor visible,
    /// system orientation, no wrapping).
    pub fn new() -> (t: LookupTable)
        ensures
            t@ == LookupModel::empty(),
            t@.wf(),
    {
        let t = LookupTable {
            candidates: Vec::new(),
            labels: Vec::new(),
            paging: Paging::at(0, 5, 0),
            cursor_visible: true,
            round: false,
            orientation: 2,
        };
        assert(t@.candidates =~= Seq::<TextModel>::empty());
        assert(t@.labels =~= Seq::<TextModel>::empty());
        t
    }

    /// Clear all candidates and labels and reset the table state; the
    /// orientation is kept.
    pub fn clear(&mut self)
        ensures
            final(self)@ == (LookupModel { orientation: old(self)@.orientation, ..LookupModel::empty() }),
            final(self)@.wf(),
    {
        self.candidates = Vec::new();
        self.labels = Vec::new();
        self.paging = Paging::at(0, 5, 0);
        self.cursor_visible = true;
        self.round = false;
        assert(self@.candidates =~= Seq::<TextModel>::empty());
        assert(self@.labels =~= Seq::<TextModel>::empty());
    }

    /// Append a candidate at the end of the list.
    pub fn append_candidate(&mut self, candidate: Text)
        ensures
            final(self)@ == (LookupModel { candidates: old(self)@.candidates.push(candidate@), ..old(self)@ }),
            old(self)@.wf() && old(self)@.candidates.len() < u32::MAX ==> final(self)@.wf(),
            old(self)@.cursor_valid() ==> final(self)@.cursor_valid(),
    {
        self.candidates.push(candidate);
        assert(self@.candidates =~= old(self)@.candidates.push(candidate@));
    }

    /// Put the cursor at `pos`, the in-page position following it.
    fn move_cursor(&mut self, pos: u32)
        ensures
            final(self)@ == old(self)@.with_cursor(pos),
    {
        self.paging = Paging::at(pos, self.paging.page_size, self.paging.cursor_pos_in_page);
    }

    /// Replace all candidates; the cursor goes back to 0 if it falls outside the new list.
    pub fn set_candidates(&mut self, candidates: Vec<Text>)
        ensures
            final(self)@ == old(self)@.set_candidates(texts_model(candidates@)),
            old(self)@.wf() && candidates@.len() <= u32::MAX ==> final(self)@.wf(),
            candidates@.len() <= u32::MAX ==> final(self)@.cursor_valid(),
    {
        self.candidates = candidates;
        let c = self.paging.cursor_pos;
        if c >= #[verifier::truncate] (self.candidates.len() as u32) {
            self.move_cursor(0);
        } else {
            self.move_cursor(c);
        }
    }

    /// Set the absolute cursor position (clamped to the last candidate) and
    /// update the in-page position.
    pub fn set_cursor_pos(&mut self, pos: u32)
        requires
            old(self)@.candidates.len() == 0 || old(self)@.num() > 0,
        ensures
            final(self)@ == old(self)@.set_cursor_pos(pos),
            old(self)@.wf() ==> final(self)@.wf(),
            old(self)@.candidates.len() <= u32::MAX ==> final(self)@.cursor_valid(),
    {
        let n = #[verifier::truncate] (self.candidates.len() as u32);
        if pos < n {
            self.move_cursor(pos);
        } else if self.candidates.len() != 0 {
            self.move_cursor(n - 1);
        } else {
            self.move_cursor(0);
        }
    }

    /// The absolute cursor position.
    pub fn cursor_pos(&self) -> (r: u32)
        ensures
            r == self@.cursor_pos,
    {
        self.paging.cursor_pos
    }

    /// All candidates.
    pub fn candidates(&self) -> (r: &[Text])
        ensures
            texts_model(r@) == self@.candidates,
    {
        self.candidates.as_slice()
    }

    /// All labels.
    pub fn labels(&self) -> (r: &[Text])
        ensures
            texts_model(r@) == self@.labels,
    {
        self.labels.as_slice()
    }

    /// Whether the cursor highlight is visible.
    pub fn cursor_visible(&self) -> (r: bool)
        ensures
            r == self@.cursor_visible,
    {
        self.cursor_visible
    }

    /// Whether wrapping at list boundaries is enabled.
    pub fn round(&self) -> (r: bool)
        ensures
            r == self@.round,
    {
        self.round
    }

    /// The orientation; a stored number that names none reads as vertical.
    pub fn orientation(&self) -> (r: LookupOrientation)
        ensures
            r == (match orientation_of(self@.orientation as int) {
                Some(o) => o,
                None => LookupOrientation::Vertical,
            }),
    {
        match LookupOrientation::from_i32(self.orientation) {
            Some(o) => o,
            None => LookupOrientation::Vertical,
        }
    }

    /// The cursor position within the current page: the cursor modulo the
    /// page size whenever the page size is positive.
    pub fn cursor_pos_in_page(&self) -> (r: u32)
        ensures
            r == self@.cursor_pos_in_page,
            self@.in_page_follows_cursor(),
    {
        proof {
            use_type_invariant(&self.paging);
        }
        self.paging.cursor_pos_in_page
    }

    /// Set the number of candidates per page.
    pub fn set_page_size(&mut self, size: u32)
        ensures
            final(self)@ == old(self)@.set_page_size(size),
            old(self)@.wf() && size > 0 ==> final(self)@.wf(),
            old(self)@.cursor_valid() ==> final(self)@.cursor_valid(),
    {
        self.paging = Paging::at(self.paging.cursor_pos, size, self.paging.cursor_pos_in_page);
    }

    /// The page size.
    pub fn page_size(&self) -> (r: u32)
        ensures
            r == self@.page_size,
    {
        self.paging.page_size
    }

    /// Set the panel layout orientation.
    pub fn set_orientation(&mut self, orientation: LookupOrientation)
        ensures
            final(self)@ == (LookupModel { orientation: orientation_code(orientation) as i32, ..old(self)@ }),
            old(self)@.wf() ==> final(self)@.wf(),
    {
        self.orientation = orientation.to_u32() as i32;
    }

    /// Enable or disable wrapping at list boundaries.
    pub fn set_round(&mut self, round: bool)
        ensures
            final(self)@ == (LookupModel { round, ..old(self)@ }),
    {
        self.round = round;
    }

    /// Show or hide the cursor highlight.
    pub fn set_cursor_visible(&mut self, visible: bool)
        ensures
            final(self)@ == (LookupModel { cursor_visible: visible, ..old(self)@ }),
    {
        self.cursor_visible = visible;
    }

    /// Replace all candidate labels.
    pub fn set_labels(&mut self, labels: Vec<Text>)
        ensures
            final(self)@ == (LookupModel { labels: texts_model(labels@), ..old(self)@ }),
    {
        self.labels = labels;
    }

    /// Move the cursor to the previous page; on the first page, wrap to the
    /// last page when wrapping is on. Returns `false` (and changes nothing)
    /// when the cursor is on the first page and wrapping is off.
    pub fn page_up(&mut self) -> (moved: bool)
        ensures
            (final(self)@, moved) == old(self)@.page_up(),
            old(self)@.wf() ==> final(self)@.wf(),
            old(self)@.cursor_valid() && old(self)@.candidates.len() <= u32::MAX ==> final(self)@.cursor_valid(),
    {
        let ps = self.paging.page_size;
        let c = self.paging.cursor_pos;
        if c >= ps {
            self.move_cursor(c - ps);
            true
        } else if self.round && ps > 0 {
            let n = #[verifier::truncate] (self.candidates.len() as u32);
            if n > 0 {
                proof {
                    lemma_page_base((n - 1) as u32, ps, 0);
                }
                let last = (n - 1) / ps * ps;
                if c < n - 1 - last {
                    self.move_cursor(last + c);
                } else {
                    self.move_cursor(n - 1);
                }
            }
            true
        } else {
            false
        }
    }

    /// Move the cursor to the next page, keeping its place on the page or
    /// stopping at the last candidate; on the last page, wrap to 0 when
    /// wrapping is on. Returns `false` (and changes nothing) when the cursor
    /// is on the last page and wrapping is off, or when the page size is 0.
    pub fn page_down(&mut self) -> (moved: bool)
        ensures
            (final(self)@, moved) == old(self)@.page_down(),
            old(self)@.wf() ==> final(self)@.wf(),
            old(self)@.cursor_valid() && old(self)@.candidates.len() <= u32::MAX ==> final(self)@.cursor_valid(),
    {
        let ps = self.paging.page_size;
        if ps == 0 {
            return false;
        }
        let c = self.paging.cursor_pos;
        let n = #[verifier::truncate] (self.candidates.len() as u32);
        proof {
            lemma_page_base(c, ps, 0);
        }
        let base = c / ps * ps;
        if ps < n && base < n - ps {
            if c < n - ps {
                self.move_cursor(c + ps);
            } else {
                self.move_cursor(n - 1);
            }
            true
        } else if self.round {
            self.move_cursor(0);
            true
        } else {
            false
        }
    }

    /// Move the cursor up by one candidate. Returns `false` (and changes
    /// nothing) when the cursor is at 0 and wrapping is off.
    pub fn cursor_up(&mut self) -> (moved: bool)
        requires
            old(self)@.candidates.len() == 0 || old(self)@.num() > 0,
        ensures
            (final(self)@, moved) == old(self)@.cursor_up(),
            old(self)@.wf() ==> final(self)@.wf(),
            old(self)@.cursor_valid() && old(self)@.candidates.len() <= u32::MAX ==> final(self)@.cursor_valid(),
    {
        let c = self.paging.cursor_pos;
        if c > 0 {
            self.move_cursor(c - 1);
            true
        } else if self.round && self.candidates.len() != 0 {
            self.move_cursor(#[verifier::truncate] (self.candidates.len() as u32) - 1);
            true
        } else {
            false
        }
    }

    /// Move the cursor down by one candidate. Returns `false` (and changes
    /// nothing) when the cursor is at the last candidate and wrapping is off.
    pub fn cursor_down(&mut self) -> (moved: bool)
        requires
            old(self)@.cursor_pos < u32::MAX,
        ensures
            (final(self)@, moved) == old(self)@.cursor_down(),
            old(self)@.wf() ==> final(self)@.wf(),
            old(self)@.cursor_valid() && old(self)@.candidates.len() <= u32::MAX ==> final(self)@.cursor_valid(),
    {
        let c = self.paging.cursor_pos;
        if c + 1 < #[verifier::truncate] (self.candidates.len() as u32) {
            self.move_cursor(c + 1);
            true
        } else if self.round && self.candidates.len() != 0 {
            self.move_cursor(0);
            true
        } else {
            false
        }
    }

    /// The candidates on the cursor's page: from the page start, at most one
    /// page of them.
    pub fn current_page(&self) -> (r: &[Text])
        requires
            self@.page_size > 0 || self@.cursor_pos_in_page <= self@.cursor_pos,
            self@.page_start() <= self@.candidates.len(),
        ensures
            texts_model(r@) == self@.candidates.subrange(self@.page_start(), self@.page_end()),
    {
        proof {
            use_type_invariant(&self.paging);
            if self.paging.page_size > 0 {
                lemma_page_base(self.paging.cursor_pos, self.paging.page_size, 0);
            }
        }
        let start = (self.paging.cursor_pos - self.paging.cursor_pos_in_page) as usize;
        let len = self.candidates.len();
        let end: usize = if (start as u64) + (self.paging.page_size as u64) < (len as u64) {
            start + self.paging.page_size as usize
        } else {
            len
        };
        let r = &self.candidates.as_slice()[start..end];
        assert(texts_model(r@) =~= self@.candidates.subrange(self@.page_start(), self@.page_end()));
        r
    }

    /// Move the cursor to position `pos` within the current page; refused
    /// (nothing changes) unless `pos` is below the page size and the page
    /// has a candidate at that position.
    pub fn set_cursor_pos_in_page(&mut self, pos: u32)
        ensures
            final(self)@ == old(self)@.set_cursor_pos_in_page(pos),
            old(self)@.wf() ==> final(self)@.wf(),
            old(self)@.cursor_valid() && old(self)@.candidates.len() <= u32::MAX ==> final(self)@.cursor_valid(),
    {
        let ps = self.paging.page_size;
        if ps > 0 && pos < ps {
            let n = #[verifier::truncate] (self.candidates.len() as u32);
            let c = self.paging.cursor_pos;
            proof {
                lemma_page_base(c, ps, pos);
            }
            let base = c / ps * ps;
            if pos < n && base < n - pos {
                self.paging = Paging::at(base + pos, ps, pos);
            }
        }
    }

    /// The candidate count as a 32-bit number.
    pub fn number_of_candidates(&self) -> (r: u32)
        ensures
            r == self@.num(),
    {
        #[verifier::truncate] (self.candidates.len() as u32)
    }

    /// Whether there are no candidates.
    pub fn is_empty(&self) -> (b: bool)
        ensures
            b == (self@.candidates.len() == 0),
    {
        self.candidates.len() == 0
    }

    /// The candidate under the cursor, if the cursor designates one.
    pub fn get_current_candidate(&self) -> (r: Option<&Text>)
        ensures
            r is Some <==> self@.cursor_pos < self@.candidates.len(),
            r matches Some(t) ==> t@ == self@.candidates[self@.cursor_pos as int],
    {
        let i = self.paging.cursor_pos as usize;
        if i < self.candidates.len() {
            Some(&self.candidates[i])
        } else {
            None
        }
    }
}

/// Replacing the in-page part of a position keeps the page start and stays
/// on the same page.
proof fn lemma_page_base(p: u32, ps: u32, pos: u32)
    requires
        ps > 0,
        pos < ps,
    ensures
        (p / ps) * ps <= p,
        ((p / ps) * ps + pos) % (ps as int) == pos,
        (p / ps) * ps + pos - pos == (p as int) - (p as int) % (ps as int),
{
    let q = p as int / ps as int;
    assert(p as int == q * ps + p as int % ps as int && q >= 0) by (nonlinear_arith)
        requires ps > 0, q == p as int / ps as int, p >= 0;
    assert(0 <= p as int % ps as int) by (nonlinear_arith) requires ps > 0;
    assert((q * ps + pos) % (ps as int) == pos) by (nonlinear_arith) requires ps > 0, 0 <= pos < ps, q >= 0;
}

/// The wire encoding of a sequence of texts: an array of variants.
pub open spec fn encode_texts(s: Seq<TextModel>) -> GModel {
    GModel::Array(s.map_values(|t: TextModel| encode_text_elem(t)))
}

/// Decoding a sequence of texts from a field: an array of texts, decoded in
/// order; `missing` is reported when the field is no array.
pub open spec fn decode_texts(g: GModel, missing: Seq<char>) -> Outcome<Seq<TextModel>> {
    match g {
        GModel::Array(items) => decode_seq(items, text_decoder()),
        _ => Outcome::Fail(missing),
    }
}

/// The wire encoding of a lookup table:
/// `("IBusLookupTable", {}, page_size, cursor_pos, cursor_visible, round,
/// orientation, [candidates], [labels])`.
pub open spec fn encode_lookup_table(m: LookupModel) -> GModel {
    wrap_model(
        "IBusLookupTable"@,
        GModel::Struct(
            seq![
                GModel::U32(m.page_size),
                GModel::U32(m.cursor_pos),
                GModel::Bool(m.cursor_visible),
                GModel::Bool(m.round),
                GModel::I32(m.orientation),
                encode_texts(m.candidates),
                encode_texts(m.labels),
            ],
        ),
    )
}

/// The table that decoding builds from its decoded parts: the in-page
/// position is the cursor modulo the page size (0 for an empty page size).
pub open spec fn decoded_table(
    page_size: u32,
    cursor_pos: u32,
    cursor_visible: bool,
    round: bool,
    orientation: i32,
    candidates: Seq<TextModel>,
    labels: Seq<TextModel>,
) -> LookupModel {
    LookupModel {
        candidates,
        labels,
        cursor_pos,
        cursor_visible,
        round,
        orientation,
        page_size,
        cursor_pos_in_page: if page_size > 0 { (cursor_pos % page_size) as u32 } else { 0 },
    }
}

/// Decoding a lookup table: an `IBusLookupTable` envelope whose first seven
/// payload fields are `u32, u32, bool, bool, i32` and two arrays of texts.
pub open spec fn decode_lookup_table(g: GModel) -> Outcome<LookupModel> {
    match unwrap_model(g, "IBusLookupTable"@) {
        Unwrapped::Payload(p) => match p {
            GModel::Struct(f) => if f.len() < 7 {
                Outcome::Fail("Invalid IBusLookupTable inner structure"@)
            } else if !(f[0] is U32) {
                Outcome::Fail("Invalid page_size: incorrect type"@)
            } else if !(f[1] is U32) {
                Outcome::Fail("Invalid cursor_pos: incorrect type"@)
            } else if !(f[2] is Bool) {
                Outcome::Fail("Invalid cursor_visible: incorrect type"@)
            } else if !(f[3] is Bool) {
                Outcome::Fail("Invalid round: incorrect type"@)
            } else if !(f[4] is I32) {
                Outcome::Fail("Invalid orientation: incorrect type"@)
            } else {
                match decode_texts(unvariant(f[5]), "Invalid candidates array"@) {
                    Outcome::Done(cands) => match decode_texts(unvariant(f[6]), "Invalid labels array"@) {
                        Outcome::Done(labels) => Outcome::Done(
                            decoded_table(
                                f[0]->U32_0,
                                f[1]->U32_0,
                                f[2]->Bool_0,
                                f[3]->Bool_0,
                                f[4]->I32_0,
                                cands,
                                labels,
                            ),
                        ),
                        Outcome::Fail(m) => Outcome::Fail(m),
                        Outcome::Abort => Outcome::Abort,
                    },
                    Outcome::Fail(m) => Outcome::Fail(m),
                    Outcome::Abort => Outcome::Abort,
                }
            },
            _ => Outcome::Fail("Invalid IBusLookupTable inner structure"@),
        },
        u => envelope_failure(u, "IBusLookupTable"@),
    }
}

/// The texts with their cursors after the last byte.
pub open spec fn with_end_cursors(s: Seq<TextModel>) -> Seq<TextModel> {
    s.map_values(|t: TextModel| with_end_cursor(t))
}

/// Decoding an encoded sequence of texts gives it back with end cursors.
pub proof fn lemma_texts_roundtrip(s: Seq<TextModel>, missing: Seq<char>)
    ensures
        decode_texts(encode_texts(s), missing) == Outcome::Done(with_end_cursors(s)),
    decreases s.len(),
{
    let enc = |t: TextModel| encode_text_elem(t);
    if s.len() > 0 {
        lemma_texts_roundtrip(s.drop_last(), missing);
        assert(s.map_values(enc).drop_last() =~= s.drop_last().map_values(enc));
        law_text_roundtrip(s.last());
        assert(with_end_cursors(s.drop_last()).push(with_end_cursor(s.last())) =~= with_end_cursors(s));
    } else {
        assert(s.map_values(enc) =~= Seq::<GModel>::empty());
        assert(with_end_cursors(s) =~= Seq::<TextModel>::empty());
    }
}

/// The wire layout of a lookup table: the class name, an empty attachment
/// dictionary, then the page size, the cursor position, whether the cursor
/// is visible, whether it wraps, the orientation, the candidates and the
/// labels, in that order.
pub proof fn law_lookup_table_wire_layout(m: LookupModel)
    ensures
        encode_lookup_table(m) == GModel::Struct(
            seq![
                GModel::Str("IBusLookupTable"@),
                GModel::Dict(Seq::empty()),
                GModel::U32(m.page_size),
                GModel::U32(m.cursor_pos),
                GModel::Bool(m.cursor_visible),
                GModel::Bool(m.round),
                GModel::I32(m.orientation),
                encode_texts(m.candidates),
                encode_texts(m.labels),
            ],
        ),
{
    let head = seq![GModel::Str("IBusLookupTable"@), GModel::Dict(Seq::empty())];
    let f = seq![
        GModel::U32(m.page_size),
        GModel::U32(m.cursor_pos),
        GModel::Bool(m.cursor_visible),
        GModel::Bool(m.round),
        GModel::I32(m.orientation),
        encode_texts(m.candidates),
        encode_texts(m.labels),
    ];
    assert(head + f =~= seq![
        GModel::Str("IBusLookupTable"@),
        GModel::Dict(Seq::empty()),
        GModel::U32(m.page_size),
        GModel::U32(m.cursor_pos),
        GModel::Bool(m.cursor_visible),
        GModel::Bool(m.round),
        GModel::I32(m.orientation),
        encode_texts(m.candidates),
        encode_texts(m.labels),
    ]);
}

/// Decoding an encoded lookup table gives the table back, except that the
/// texts' cursors move after their last byte and the in-page position is
/// recomputed; a well-formed table whose texts have end cursors comes back
/// unchanged.
pub proof fn law_lookup_table_roundtrip(m: LookupModel)
    ensures
        decode_lookup_table(encode_lookup_table(m)) == Outcome::Done(
            decoded_table(
                m.page_size,
                m.cursor_pos,
                m.cursor_visible,
                m.round,
                m.orientation,
                with_end_cursors(m.candidates),
                with_end_cursors(m.labels),
            ),
        ),
        m.wf() && with_end_cursors(m.candidates) == m.candidates && with_end_cursors(m.labels)
            == m.labels ==> decode_lookup_table(encode_lookup_table(m)) == Outcome::Done(m),
{
    lemma_texts_roundtrip(m.candidates, "Invalid candidates array"@);
    lemma_texts_roundtrip(m.labels, "Invalid labels array"@);
    let f = seq![
        GModel::U32(m.page_size),
        GModel::U32(m.cursor_pos),
        GModel::Bool(m.cursor_visible),
        GModel::Bool(m.round),
        GModel::I32(m.orientation),
        encode_texts(m.candidates),
        encode_texts(m.labels),
    ];
    let head = seq![GModel::Str("IBusLookupTable"@), GModel::Dict(Seq::empty())];
    assert((head + f).subrange(2, 9) =~= f);
}

/// Serialize a vector of texts into an array of variants.
fn texts_to_value(v: &Vec<Text>) -> (g: GValue)
    ensures
        g@ == encode_texts(texts_model(v@)),
{
    let mut items: Vec<GValue> = Vec::new();
    let mut i: usize = 0;
    while i < v.len()
        invariant
            i <= v@.len(),
            models_of(items@) == texts_model(v@.subrange(0, i as int)).map_values(|t: TextModel| encode_text_elem(t)),
        decreases v@.len() - i,
    {
        let e = make_variant(v[i].to_value());
        proof {
            lemma_models_push(items@, e);
            assert(texts_model(v@.subrange(0, i as int + 1)).map_values(|t: TextModel| encode_text_elem(t))
                =~= texts_model(v@.subrange(0, i as int)).map_values(|t: TextModel| encode_text_elem(t)).push(e@));
        }
        items.push(e);
        i = i + 1;
    }
    proof {
        assert(v@.subrange(0, v@.len() as int) =~= v@);
    }
    make_array(items)
}

/// Deserialize a vector of texts from a field holding an array.
fn texts_from_value(value: &GValue, missing: &str) -> (r: Result<Vec<Text>, Error>)
    requires
        !(decode_texts(value@, missing@) is Abort),
    ensures
        match decode_texts(value@, missing@) {
            Outcome::Done(s) => r matches Ok(v) && texts_model(v@) == s,
            Outcome::Fail(m) => r matches Err(Error::Connection(e)) && e@ == m,
            Outcome::Abort => false,
        },
{
    if let GValue::Array(arr) = value {
        proof {
            lemma_items_model(arr);
        }
        let ghost items = models_of(arr@);
        let ghost f = text_decoder();
        let mut out: Vec<Text> = Vec::new();
        let mut i: usize = 0;
        proof {
            assert(items.subrange(0, 0) =~= Seq::<GModel>::empty());
            assert(texts_model(out@) =~= Seq::<TextModel>::empty());
        }
        while i < arr.len()
            invariant
                i <= arr@.len(),
                items == models_of(arr@),
                f == text_decoder(),
                decode_texts(value@, missing@) == decode_seq(items, f),
                !(decode_seq(items, f) is Abort),
                decode_seq(items.subrange(0, i as int), f) == Outcome::Done(texts_model(out@)),
            decreases arr@.len() - i,
        {
            proof {
                lemma_decode_seq_step(items, f, i as int);
                if !(decode_seq(items.subrange(0, i as int + 1), f) is Done) {
                    lemma_decode_seq_prefix(items, f, i as int + 1);
                }
                assert(items[i as int] == arr@[i as int]@);
            }
            match Text::from_value(&arr[i]) {
                Ok(t) => {
                    proof {
                        assert(texts_model(out@.push(t)) =~= texts_model(out@).push(t@));
                    }
                    out.push(t);
                },
                Err(e) => {
                    proof {
                        lemma_decode_seq_prefix(items, f, i as int + 1);
                    }
                    return Err(e);
                },
            }
            i = i + 1;
        }
        proof {
            assert(items.subrange(0, items.len() as int) =~= items);
        }
        return Ok(out);
    }
    Err(Error::Connection(missing.to_owned()))
}

impl LookupTable {
    /// Serialize into the IBusSerializable wire format.
    pub fn to_value(&self) -> (v: GValue)
        ensures
            v@ == encode_lookup_table(self@),
    {
        let cands = texts_to_value(&self.candidates);
        let labels = texts_to_value(&self.labels);
        let mut f: Vec<GValue> = Vec::new();
        f.push(GValue::U32(self.paging.page_size));
        f.push(GValue::U32(self.paging.cursor_pos));
        f.push(GValue::Bool(self.cursor_visible));
        f.push(GValue::Bool(self.round));
        f.push(GValue::I32(self.orientation));
        f.push(cands);
        f.push(labels);
        proof {
            assert(models_of(f@) =~= seq![
                GModel::U32(self@.page_size),
                GModel::U32(self@.cursor_pos),
                GModel::Bool(self@.cursor_visible),
                GModel::Bool(self@.round),
                GModel::I32(self@.orientation),
                encode_texts(self@.candidates),
                encode_texts(self@.labels),
            ]);
        }
        let inner = make_struct(f);
        wrap_serializable("IBusLookupTable", inner)
    }

    /// Deserialize from the IBusSerializable wire format; the in-page
    /// position is recomputed from the cursor and the page size.
    pub fn from_value(value: &GValue) -> (r: Result<LookupTable, Error>)
        requires
            !(decode_lookup_table(value@) is Abort),
        ensures
            match decode_lookup_table(value@) {
                Outcome::Done(m) => r matches Ok(t) && t@ == m,
                Outcome::Fail(m) => r matches Err(Error::Connection(e)) && e@ == m,
                Outcome::Abort => false,
            },
    {
        let inner = match unwrap_serializable(value, "IBusLookupTable") {
            Ok(v) => v,
            Err(e) => return Err(e),
        };
        if let GValue::Struct(fields) = &inner {
            proof {
                lemma_items_model(fields);
            }
            if fields.len() >= 7 {
                let page_size = match &fields[0] {
                    GValue::U32(n) => *n,
                    _ => return Err(Error::Connection("Invalid page_size: incorrect type".to_owned())),
                };
                let cursor_pos = match &fields[1] {
                    GValue::U32(n) => *n,
                    _ => return Err(Error::Connection("Invalid cursor_pos: incorrect type".to_owned())),
                };
                let cursor_visible = match &fields[2] {
                    GValue::Bool(b) => *b,
                    _ => return Err(Error::Connection("Invalid cursor_visible: incorrect type".to_owned())),
                };
                let round = match &fields[3] {
                    GValue::Bool(b) => *b,
                    _ => return Err(Error::Connection("Invalid round: incorrect type".to_owned())),
                };
                let orientation = match &fields[4] {
                    GValue::I32(n) => *n,
                    _ => return Err(Error::Connection("Invalid orientation: incorrect type".to_owned())),
                };
                let candidates = match texts_from_value(unvariant_ref(&fields[5]), "Invalid candidates array") {
                    Ok(c) => c,
                    Err(e) => return Err(e),
                };
                let labels = match texts_from_value(unvariant_ref(&fields[6]), "Invalid labels array") {
                    Ok(l) => l,
                    Err(e) => return Err(e),
                };
                return Ok(LookupTable {
                    candidates,
                    labels,
                    paging: Paging::at(cursor_pos, page_size, 0),
                    cursor_visible,
                    round,
                    orientation,
                });
            }
        }
        Err(Error::Connection("Invalid IBusLookupTable inner structure".to_owned()))
    }
}

/// Moving the cursor down and then up returns to the starting table, when
/// the down move does not run off the end of a non-wrapping list.
pub proof fn law_cursor_down_then_up(m: LookupModel)
    requires
        m.wf(),
        m.cursor_pos < m.candidates.len(),
        m.round || m.cursor_pos + 1 < m.candidates.len(),
    ensures
        m.cursor_down().1,
        m.cursor_down().0.cursor_up().1,
        m.cursor_down().0.cursor_up().0 == m,
{
}

/// Moving the cursor up and then down returns to the starting table, when
/// the up move does not run off the start of a non-wrapping list.
pub proof fn law_cursor_up_then_down(m: LookupModel)
    requires
        m.wf(),
        m.cursor_pos < m.candidates.len(),
        m.round || m.cursor_pos > 0,
    ensures
        m.cursor_up().1,
        m.cursor_up().0.cursor_down().1,
        m.cursor_up().0.cursor_down().0 == m,
{
}

/// Moving one page down and then one page up returns to the starting table,
/// when there is a candidate one page further down.
pub proof fn law_page_down_then_up(m: LookupModel)
    requires
        m.wf(),
        m.cursor_pos + m.page_size < m.candidates.len(),
    ensures
        m.page_down().1,
        m.page_down().0.page_up().1,
        m.page_down().0.page_up().0 == m,
{
    lemma_page_base(m.cursor_pos, m.page_size, 0);
    let p = m.cursor_pos as int;
    let ps = m.page_size as int;
    assert((p + ps) % ps == p % ps) by (nonlinear_arith) requires ps > 0, p >= 0;
}

/// In a well-formed table, the candidate under the cursor lies on the
/// current page, at the in-page position.
pub proof fn law_cursor_on_current_page(m: LookupModel)
    requires
        m.wf(),
        m.cursor_pos < m.candidates.len(),
    ensures
        m.page_start() <= m.cursor_pos < m.page_end(),
        m.cursor_pos - m.page_start() == m.cursor_pos_in_page,
        m.candidates.subrange(m.page_start(), m.page_end())[m.cursor_pos_in_page as int]
            == m.candidates[m.cursor_pos as int],
{
    let p = m.cursor_pos as int;
    let ps = m.page_size as int;
    assert(0 <= p % ps < ps) by (nonlinear_arith) requires ps > 0;
    assert(p % ps <= p) by (nonlinear_arith) requires ps > 0, p >= 0;
    let start = m.page_start();
    let end = m.page_end();
    assert(0 <= start <= p < end <= m.candidates.len());
    let sub = m.candidates.subrange(start, end);
    assert(sub[p - start] == m.candidates[start + (p - start)]);
}

/// Setting the cursor position always leaves a valid cursor, at the
/// requested position when it designates a candidate.
pub proof fn law_set_cursor_pos_clamps(m: LookupModel, pos: u32)
    requires
        m.candidates.len() <= u32::MAX,
    ensures
        m.set_cursor_pos(pos).cursor_valid(),
        pos < m.candidates.len() ==> m.set_cursor_pos(pos).cursor_pos == pos,
        pos >= m.candidates.len() && m.candidates.len() > 0 ==> m.set_cursor_pos(pos).cursor_pos
            == m.candidates.len() - 1,
{
}

/// Each cursor and page move keeps the cursor on a candidate (or at 0 on an
/// empty list).
pub proof fn law_moves_keep_cursor_valid(m: LookupModel, pos: u32)
    requires
        m.cursor_valid(),
        m.candidates.len() <= u32::MAX,
    ensures
        m.page_up().0.cursor_valid(),
        m.page_down().0.cursor_valid(),
        m.cursor_up().0.cursor_valid(),
        m.cursor_down().0.cursor_valid(),
        m.set_cursor_pos_in_page(pos).cursor_valid(),
{
    if m.page_size > 0 && m.num() > 0 {
        lemma_page_base((m.num() - 1) as u32, m.page_size, 0);
    }
}

/// While the cursor is valid, there is a candidate under it exactly when
/// the list is non-empty.
pub proof fn law_current_candidate_iff_nonempty(m: LookupModel)
    requires
        m.cursor_valid(),
    ensures
        m.cursor_pos < m.candidates.len() <==> m.candidates.len() > 0,
{
}

/// Paging up from the first page with wrapping on lands on the last page,
/// on a candidate, with the in-page position following the cursor.
pub proof fn law_page_up_wraps_to_last_page(m: LookupModel)
    requires
        m.round,
        m.page_size > 0,
        m.cursor_pos < m.page_size,
        0 < m.candidates.len() <= u32::MAX,
    ensures
        m.page_up().1,
        m.last_page_start() <= m.page_up().0.cursor_pos < m.candidates.len(),
        m.page_up().0.page_base(m.page_up().0.cursor_pos as int) == m.last_page_start(),
        m.page_up().0.in_page_follows_cursor(),
{
    let n = m.num();
    let ps = m.page_size;
    lemma_page_base((n - 1) as u32, ps, 0);
    let q = (n - 1) as int / ps as int;
    let c = m.page_up().0.cursor_pos as int;
    assert(q * ps <= c < q * ps + ps) by (nonlinear_arith)
        requires q * ps <= c, c <= q * ps + m.cursor_pos || c == n - 1, m.cursor_pos < ps,
            (n - 1) as int / ps as int == q, ps > 0, n >= 1, q * ps <= n - 1;
    lemma_div_of_page_member(q, ps as int, c);
}

/// Paging down when a next page exists moves the cursor onto that next page,
/// on a candidate; on the last page without wrapping nothing changes.
pub proof fn law_page_down_next_page(m: LookupModel)
    requires
        m.page_size > 0,
        m.cursor_pos < m.candidates.len() <= u32::MAX,
    ensures
        m.page_down().1 <==> (m.page_base(m.cursor_pos as int) + m.page_size < m.candidates.len() || m.round),
        m.page_base(m.cursor_pos as int) + m.page_size < m.candidates.len() ==> {
            &&& m.page_down().0.cursor_pos < m.candidates.len()
            &&& m.page_down().0.page_base(m.page_down().0.cursor_pos as int) == m.page_base(m.cursor_pos as int)
                + m.page_size
        },
        m.page_down().1 ==> m.page_down().0.in_page_follows_cursor(),
{
    let ps = m.page_size as int;
    let c = m.cursor_pos as int;
    let q = c / ps;
    assert(q * ps <= c < q * ps + ps && q >= 0) by (nonlinear_arith)
        requires ps > 0, c >= 0, q == c / ps;
    let d = m.page_down().0.cursor_pos as int;
    if q * ps + ps < m.candidates.len() {
        assert((q + 1) * ps <= d < (q + 1) * ps + ps) by (nonlinear_arith)
            requires d == c + ps || (d == m.candidates.len() - 1 && c + ps >= m.candidates.len()),
                q * ps <= c < q * ps + ps, q * ps + ps < m.candidates.len();
        lemma_div_of_page_member(q + 1, ps, d);
        assert((q + 1) * ps == q * ps + ps) by (nonlinear_arith);
    }
}

/// A position between `q * ps` and `(q + 1) * ps` lies on page `q`.
proof fn lemma_div_of_page_member(q: int, ps: int, x: int)
    requires
        ps > 0,
        q >= 0,
        q * ps <= x < q * ps + ps,
    ensures
        x / ps == q,
{
    assert(x / ps == q) by (nonlinear_arith)
        requires ps > 0, q >= 0, q * ps <= x < q * ps + ps;
}

/// Moving one page up and then one page down returns to the starting table,
/// when the cursor is on a candidate past the first page.
pub proof fn law_page_up_then_down(m: LookupModel)
    requires
        m.wf(),
        m.page_size <= m.cursor_pos < m.candidates.len(),
    ensures
        m.page_up().1,
        m.page_up().0.page_down().1,
        m.page_up().0.page_down().0 == m,
{
    let p = m.cursor_pos as int;
    let ps = m.page_size as int;
    let q = (p - ps) / ps;
    assert(q * ps <= p - ps && q >= 0) by (nonlinear_arith) requires ps > 0, p - ps >= 0, q == (p - ps) / ps;
    assert((p - ps) % ps == p % ps) by (nonlinear_arith) requires ps > 0, p - ps >= 0;
}

/// Whether `b` is `a` with at most the cursor and the in-page position
/// changed: same candidates, labels, visibility, wrapping, orientation and
/// page size.
pub open spec fn only_cursor_moved(a: LookupModel, b: LookupModel) -> bool {
    &&& b.candidates == a.candidates
    &&& b.labels == a.labels
    &&& b.cursor_visible == a.cursor_visible
    &&& b.round == a.round
    &&& b.orientation == a.orientation
    &&& b.page_size == a.page_size
}

/// Moving the cursor down: one step down while a candidate follows; from
/// the last candidate, back to the first one only when wrapping is on, and
/// otherwise `false` with the table unchanged. Nothing but the cursor moves.
pub proof fn law_cursor_down_steps(m: LookupModel)
    requires
        m.candidates.len() <= u32::MAX,
    ensures
        only_cursor_moved(m, m.cursor_down().0),
        m.cursor_pos + 1 < m.candidates.len() ==> m.cursor_down().1 && m.cursor_down().0.cursor_pos
            == m.cursor_pos + 1,
        m.cursor_pos + 1 >= m.candidates.len() && !m.round ==> m.cursor_down() == (m, false),
        m.cursor_pos + 1 >= m.candidates.len() && m.round && m.candidates.len() > 0 ==> m.cursor_down().1
            && m.cursor_down().0.cursor_pos == 0,
        m.candidates.len() == 0 ==> !m.cursor_down().1,
{
}

/// Moving the cursor up: one step up while not at the first candidate; from
/// the first one, to the last candidate only when wrapping is on, and
/// otherwise `false` with the table unchanged. Nothing but the cursor moves.
pub proof fn law_cursor_up_steps(m: LookupModel)
    requires
        m.candidates.len() <= u32::MAX,
    ensures
        only_cursor_moved(m, m.cursor_up().0),
        m.cursor_pos > 0 ==> m.cursor_up().1 && m.cursor_up().0.cursor_pos == m.cursor_pos - 1,
        m.cursor_pos == 0 && !m.round ==> m.cursor_up() == (m, false),
        m.cursor_pos == 0 && m.round && m.candidates.len() > 0 ==> m.cursor_up().1 && m.cursor_up().0.cursor_pos
            == m.candidates.len() - 1,
        m.candidates.len() == 0 && m.cursor_pos == 0 ==> !m.cursor_up().1,
{
}

/// Paging up: one page back when the cursor is past the first page; on the
/// first page without wrapping, `false` with the table unchanged. Nothing
/// but the cursor moves.
pub proof fn law_page_up_steps(m: LookupModel)
    ensures
        only_cursor_moved(m, m.page_up().0),
        m.page_size <= m.cursor_pos ==> m.page_up().1 && m.page_up().0.cursor_pos == m.cursor_pos - m.page_size,
        m.cursor_pos < m.page_size && !m.round ==> m.page_up() == (m, false),
{
}

/// Paging down: without wrapping, `false` with the table unchanged when no
/// page follows the cursor's page (or pages are empty); when one follows,
/// the cursor moves one page down, or to the last candidate. Nothing but
/// the cursor moves.
pub proof fn law_page_down_steps(m: LookupModel)
    requires
        m.candidates.len() <= u32::MAX,
    ensures
        only_cursor_moved(m, m.page_down().0),
        m.page_size == 0 ==> m.page_down() == (m, false),
        m.page_size > 0 && m.page_base(m.cursor_pos as int) + m.page_size >= m.candidates.len() && !m.round
            ==> m.page_down() == (m, false),
        m.page_size > 0 && m.page_base(m.cursor_pos as int) + m.page_size >= m.candidates.len() && m.round
            ==> m.page_down().1 && m.page_down().0.cursor_pos == 0,
        m.page_size > 0 && m.cursor_pos + m.page_size < m.candidates.len() ==> m.page_down().1
            && m.page_down().0.cursor_pos == m.cursor_pos + m.page_size,
{
    if m.page_size > 0 {
        lemma_page_base(m.cursor_pos, m.page_size, 0);
    }
}

/// Setting the position within the page: when the page has a candidate at
/// `pos`, the cursor goes there (same page, in-page position `pos`);
/// otherwise nothing changes. Nothing but the cursor moves.
pub proof fn law_set_cursor_pos_in_page_steps(m: LookupModel, pos: u32)
    requires
        m.candidates.len() <= u32::MAX,
    ensures
        only_cursor_moved(m, m.set_cursor_pos_in_page(pos)),
        m.page_size > 0 && pos < m.page_size && m.page_base(m.cursor_pos as int) + pos < m.candidates.len() ==> {
            let r = m.set_cursor_pos_in_page(pos);
            &&& r.cursor_pos < m.candidates.len()
            &&& r.cursor_pos_in_page == pos
            &&& r.page_base(r.cursor_pos as int) == m.page_base(m.cursor_pos as int)
            &&& r.cursor_pos % m.page_size == pos
        },
        !(m.page_size > 0 && pos < m.page_size && m.page_base(m.cursor_pos as int) + pos < m.candidates.len())
            ==> m.set_cursor_pos_in_page(pos) == m,
{
    if m.page_size > 0 && pos < m.page_size {
        lemma_page_base(m.cursor_pos, m.page_size, pos);
        let q = m.cursor_pos as int / m.page_size as int;
        let r = m.set_cursor_pos_in_page(pos);
        if m.page_base(m.cursor_pos as int) + pos < m.candidates.len() {
            assert(q >= 0) by (nonlinear_arith) requires m.page_size > 0, q == m.cursor_pos as int / m.page_size as int;
            lemma_div_of_page_member(q, m.page_size as int, r.cursor_pos as int);
        }
    }
}

/// Replacing the candidates keeps the cursor when it still designates a
/// candidate and puts it back to 0 otherwise; the labels, visibility,
/// wrapping, orientation and page size stay.
pub proof fn law_set_candidates_cursor(m: LookupModel, cands: Seq<TextModel>)
    requires
        cands.len() <= u32::MAX,
    ensures
        m.set_candidates(cands).candidates == cands,
        m.set_candidates(cands).labels == m.labels,
        m.set_candidates(cands).cursor_visible == m.cursor_visible,
        m.set_candidates(cands).round == m.round,
        m.set_candidates(cands).orientation == m.orientation,
        m.set_candidates(cands).page_size == m.page_size,
        m.cursor_pos < cands.len() ==> m.set_candidates(cands).cursor_pos == m.cursor_pos,
        m.cursor_pos >= cands.len() ==> m.set_candidates(cands).cursor_pos == 0,
        m.set_candidates(cands).cursor_valid(),
        m.page_size > 0 ==> m.set_candidates(cands).in_page_follows_cursor(),
{
}

/// Setting the page size keeps the cursor and everything else; with a
/// positive size, the in-page position follows the cursor.
pub proof fn law_set_page_size_keeps_cursor(m: LookupModel, size: u32)
    ensures
        only_cursor_moved(LookupModel { page_size: size, ..m }, m.set_page_size(size)),
        m.set_page_size(size).page_size == size,
        m.set_page_size(size).cursor_pos == m.cursor_pos,
        size > 0 ==> m.set_page_size(size).cursor_pos_in_page == m.cursor_pos % size,
{
}

/// Setting the cursor position moves nothing but the cursor, and leaves
/// the in-page position following it.
pub proof fn law_set_cursor_pos_moves_cursor_only(m: LookupModel, pos: u32)
    ensures
        only_cursor_moved(m, m.set_cursor_pos(pos)),
        m.page_size > 0 ==> m.set_cursor_pos(pos).in_page_follows_cursor(),
{
}

/// The orientation numbered `v`, vertical when `v` names none.
pub open spec fn orientation_from(v: u32) -> LookupOrientation {
    match orientation_of(v as int) {
        Some(o) => o,
        None => LookupOrientation::Vertical,
    }
}

impl vstd::std_specs::convert::FromSpecImpl<LookupOrientation> for u32 {
    open spec fn obeys_from_spec() -> bool {
        true
    }

    open spec fn from_spec(o: LookupOrientation) -> u32 {
        orientation_code(o)
    }
}

impl From<LookupOrientation> for u32 {
    fn from(o: LookupOrientation) -> (r: u32) {
        o.to_u32()
    }
}

impl vstd::std_specs::convert::FromSpecImpl<u32> for LookupOrientation {
    open spec fn obeys_from_spec() -> bool {
        true
    }

    open spec fn from_spec(v: u32) -> LookupOrientation {
        orientation_from(v)
    }
}

impl From<u32> for LookupOrientation {
    fn from(v: u32) -> (r: LookupOrientation) {
        LookupOrientation::from_u32_or_vertical(v)
    }
}

/// Copies of texts.
fn clone_texts(v: &Vec<Text>) -> (r: Vec<Text>)
    ensures
        texts_model(r@) == texts_model(v@),
{
    let mut out: Vec<Text> = Vec::new();
    let mut i: usize = 0;
    while i < v.len()
        invariant
            i <= v@.len(),
            texts_model(out@) =~= texts_model(v@.subrange(0, i as int)),
        decreases v@.len() - i,
    {
        let t = v[i].clone();
        proof {
            assert(texts_model(out@.push(t)) =~= texts_model(out@).push(t@));
            assert(texts_model(v@.subrange(0, i as int + 1)) =~= texts_model(v@.subrange(0, i as int)).push(v@[i as int]@));
        }
        out.push(t);
        i = i + 1;
    }
    proof {
        assert(v@.subrange(0, v@.len() as int) =~= v@);
    }
    out
}

impl Clone for LookupTable {
    fn clone(&self) -> (r: LookupTable)
        ensures
            r@ == self@,
    {
        LookupTable {
            candidates: clone_texts(&self.candidates),
            labels: clone_texts(&self.labels),
            paging: self.paging.duplicate(),
            cursor_visible: self.cursor_visible,
            round: self.round,
            orientation: self.orientation,
        }
    }
}

impl Default for LookupTable {
    /// Same as [`LookupTable::new`].
    fn default() -> (t: LookupTable)
        ensures
            t@ == LookupModel::empty(),
    {
        LookupTable::new()
    }
}

/// Converting an orientation to its number and back gives the same orientation.
pub proof fn law_orientation_code_roundtrip(o: LookupOrientation)
    ensures
        orientation_from(orientation_code(o)) == o,
{
}

} // verus!
