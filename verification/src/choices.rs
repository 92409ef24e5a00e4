//! The lists that the page's combo rows offer.
//!
//! Two rows, the one for the size of the virtual desktop and the one for the
//! frame rate limit, start with an entry for a value that is not in their
//! list. The entries of the list follow it, so an entry's slot in the row is
//! its position in the list plus one.

use vstd::prelude::*;

verus! {

/// The slot that a row with a leading entry for other values shows for
/// `value`: 0 where the list does not hold it, else the number, counted
/// from 1, of the last entry that equals it.
pub open spec fn slot_of<T>(options: Seq<T>, value: T) -> nat
    decreases options.len(),
{
    if options.len() == 0 {
        0
    } else if options.last() == value {
        options.len()
    } else {
        slot_of(options.drop_last(), value)
    }
}

/// Slot 0 stands for exactly the values that the list lacks.
pub proof fn lemma_slot_zero<T>(options: Seq<T>, value: T)
    ensures
        slot_of(options, value) == 0 <==> !options.contains(value),
    decreases options.len(),
{
    if options.len() > 0 {
        if options.last() == value {
            assert(options[options.len() - 1] == value);
        } else {
            lemma_slot_zero(options.drop_last(), value);
            let front = options.drop_last();
            if front.contains(value) {
                let i = choose|i: int| 0 <= i < front.len() && front[i] == value;
                assert(options[i] == value);
            }
            if options.contains(value) {
                let i = choose|i: int| 0 <= i < options.len() && options[i] == value;
                assert(front[i] == value);
            }
        }
    }
}

/// A slot other than 0 is that of an entry that equals the value, and no
/// later entry does.
pub proof fn lemma_slot_entry<T>(options: Seq<T>, value: T)
    requires
        slot_of(options, value) > 0,
    ensures
        slot_of(options, value) <= options.len(),
        options[slot_of(options, value) - 1] == value,
        forall|j: int| slot_of(options, value) <= j < options.len() ==> options[j] != value,
    decreases options.len(),
{
    if options.len() > 0 && options.last() != value {
        let front = options.drop_last();
        lemma_slot_entry(front, value);
        assert forall|j: int| slot_of(options, value) <= j < options.len() implies options[j]
            != value by {
            if j < front.len() {
                assert(front[j] == options[j]);
            }
        }
    }
}

/// In a list without repetition each entry has the slot after its position.
pub proof fn lemma_slot_of_entry<T>(options: Seq<T>, i: int)
    requires
        options.no_duplicates(),
        0 <= i < options.len(),
    ensures
        slot_of(options, options[i]) == i + 1,
    decreases options.len(),
{
    if i < options.len() - 1 {
        let front = options.drop_last();
        assert(front[i] == options[i]);
        lemma_slot_of_entry(front, i);
    }
}

/// What the rows offer, as plain values.
pub struct ChoicesView {
    /// How many synchronisation methods there are.
    pub sync_methods: u32,
    /// How many languages there are.
    pub languages: u32,
    /// How many overlays there are.
    pub huds: u32,
    /// The sizes offered for the virtual desktop, width before height.
    pub resolutions: Seq<(u64, u64)>,
    /// The frame rate limits offered.
    pub fps_limits: Seq<u64>,
}

impl ChoicesView {
    /// Every entry has a slot that a row can hold, and no list repeats an
    /// entry.
    pub open spec fn well_formed(self) -> bool {
        &&& self.resolutions.len() <= u32::MAX
        &&& self.fps_limits.len() <= u32::MAX
        &&& self.resolutions.no_duplicates()
        &&& self.fps_limits.no_duplicates()
    }

    /// The slot of the row of sizes that stands for `width` by `height`.
    pub open spec fn resolution_slot(self, width: u64, height: u64) -> nat {
        slot_of(self.resolutions, (width, height))
    }

    /// The slot of the row of limits that stands for `fps`.
    pub open spec fn fps_slot(self, fps: u64) -> nat {
        slot_of(self.fps_limits, fps)
    }

    /// The size behind a slot of the row of sizes; the leading slot and
    /// slots beyond the list have none.
    pub open spec fn resolution_at(self, slot: u32) -> Option<(u64, u64)> {
        if 1 <= slot <= self.resolutions.len() {
            Some(self.resolutions[slot - 1])
        } else {
            None
        }
    }

    /// The limit behind a slot of the row of limits; the leading slot and
    /// slots beyond the list have none.
    pub open spec fn fps_at(self, slot: u32) -> Option<u64> {
        if 1 <= slot <= self.fps_limits.len() {
            Some(self.fps_limits[slot - 1])
        } else {
            None
        }
    }
}

/// What the rows offer.
#[derive(Debug, PartialEq, Eq)]
pub struct Choices {
    sync_methods: u32,
    languages: u32,
    huds: u32,
    resolutions: Vec<(u64, u64)>,
    fps_limits: Vec<u64>,
}

impl View for Choices {
    type V = ChoicesView;

    closed spec fn view(&self) -> ChoicesView {
        ChoicesView {
            sync_methods: self.sync_methods,
            languages: self.languages,
            huds: self.huds,
            resolutions: self.resolutions@,
            fps_limits: self.fps_limits@,
        }
    }
}

/// The slot of `(width, height)` among the first `end` sizes of `list`.
fn size_slot_in(list: &Vec<(u64, u64)>, end: usize, width: u64, height: u64) -> (out: u32)
    requires
        end <= list.len(),
        end <= u32::MAX,
    ensures
        out == slot_of(list@.take(end as int), (width, height)),
{
    let mut slot: u32 = 0;
    let mut i: usize = 0;
    while i < end
        invariant
            i <= end <= list.len(),
            end <= u32::MAX,
            slot == slot_of(list@.take(i as int), (width, height)),
        decreases end - i,
    {
        proof {
            let next = list@.take(i + 1);
            assert(next.last() == list@[i as int]);
            assert(next.drop_last() =~= list@.take(i as int));
        }
        if list[i].0 == width && list[i].1 == height {
            slot = (i + 1) as u32;
        }
        i += 1;
    }
    slot
}

/// The slot of `fps` among the first `end` limits of `list`.
fn limit_slot_in(list: &Vec<u64>, end: usize, fps: u64) -> (out: u32)
    requires
        end <= list.len(),
        end <= u32::MAX,
    ensures
        out == slot_of(list@.take(end as int), fps),
{
    let mut slot: u32 = 0;
    let mut i: usize = 0;
    while i < end
        invariant
            i <= end <= list.len(),
            end <= u32::MAX,
            slot == slot_of(list@.take(i as int), fps),
        decreases end - i,
    {
        proof {
            let next = list@.take(i + 1);
            assert(next.last() == list@[i as int]);
            assert(next.drop_last() =~= list@.take(i as int));
        }
        if list[i] == fps {
            slot = (i + 1) as u32;
        }
        i += 1;
    }
    slot
}

/// A list repeats no entry when no entry has a slot among those before it.
proof fn lemma_distinct_step<T>(options: Seq<T>, i: int)
    requires
        0 <= i < options.len(),
        options.take(i).no_duplicates(),
    ensures
        options.take(i + 1).no_duplicates() <==> slot_of(options.take(i), options[i]) == 0,
{
    let front = options.take(i);
    let next = options.take(i + 1);
    lemma_slot_zero(front, options[i]);
    if front.contains(options[i]) {
        let j = choose|j: int| 0 <= j < front.len() && front[j] == options[i];
        assert(next[j] == next[i]);
    } else {
        assert forall|a: int, b: int| 0 <= a < next.len() && 0 <= b < next.len() && a != b implies next[a]
            != next[b] by {
            if a < i && b < i {
                assert(front[a] == next[a] && front[b] == next[b]);
            } else if a < i {
                assert(front[a] == next[a]);
            } else {
                assert(front[b] == next[b]);
            }
        }
    }
}

/// A list with a repetition among its first entries has one.
proof fn lemma_repetition_stays<T>(options: Seq<T>, i: int)
    requires
        0 <= i <= options.len(),
        !options.take(i).no_duplicates(),
    ensures
        !options.no_duplicates(),
{
    let front = options.take(i);
    let (a, b) = choose|a: int, b: int|
        0 <= a < front.len() && 0 <= b < front.len() && a != b && front[a] == front[b];
    assert(options[a] == options[b]);
}

/// Tells whether no size stands twice among the first `u32::MAX` at most.
fn sizes_distinct(list: &Vec<(u64, u64)>) -> (out: bool)
    requires
        list.len() <= u32::MAX,
    ensures
        out == list@.no_duplicates(),
{
    let mut i: usize = 0;
    while i < list.len()
        invariant
            i <= list.len() <= u32::MAX,
            list@.take(i as int).no_duplicates(),
        decreases list.len() - i,
    {
        let slot = size_slot_in(list, i, list[i].0, list[i].1);
        proof {
            lemma_distinct_step(list@, i as int);
        }
        if slot != 0 {
            proof {
                lemma_repetition_stays(list@, i + 1);
            }
            return false;
        }
        i += 1;
    }
    proof {
        assert(list@.take(list.len() as int) =~= list@);
    }
    true
}

/// Tells whether no limit stands twice.
fn limits_distinct(list: &Vec<u64>) -> (out: bool)
    requires
        list.len() <= u32::MAX,
    ensures
        out == list@.no_duplicates(),
{
    let mut i: usize = 0;
    while i < list.len()
        invariant
            i <= list.len() <= u32::MAX,
            list@.take(i as int).no_duplicates(),
        decreases list.len() - i,
    {
        let slot = limit_slot_in(list, i, list[i]);
        proof {
            lemma_distinct_step(list@, i as int);
        }
        if slot != 0 {
            proof {
                lemma_repetition_stays(list@, i + 1);
            }
            return false;
        }
        i += 1;
    }
    proof {
        assert(list@.take(list.len() as int) =~= list@);
    }
    true
}

impl Choices {
    /// What holds of every value of this type.
    #[verifier::type_invariant]
    pub open spec fn well_formed(&self) -> bool {
        self@.well_formed()
    }

    /// Puts the lists together. There is no result where a list is too long
    /// for its row or holds an entry twice.
    pub fn new(
        sync_methods: u32,
        languages: u32,
        huds: u32,
        resolutions: Vec<(u64, u64)>,
        fps_limits: Vec<u64>,
    ) -> (out: Option<Choices>)
        ensures
            out is Some <==> (ChoicesView {
                sync_methods,
                languages,
                huds,
                resolutions: resolutions@,
                fps_limits: fps_limits@,
            }).well_formed(),
            out matches Some(choices) ==> choices@ == (ChoicesView {
                sync_methods,
                languages,
                huds,
                resolutions: resolutions@,
                fps_limits: fps_limits@,
            }),
    {
        if resolutions.len() > u32::MAX as usize || fps_limits.len() > u32::MAX as usize {
            return None;
        }
        if !sizes_distinct(&resolutions) || !limits_distinct(&fps_limits) {
            return None;
        }
        Some(Choices { sync_methods, languages, huds, resolutions, fps_limits })
    }

    /// How many synchronisation methods there are.
    pub fn sync_methods(&self) -> (out: u32)
        ensures
            out == self@.sync_methods,
    {
        self.sync_methods
    }

    /// How many languages there are.
    pub fn languages(&self) -> (out: u32)
        ensures
            out == self@.languages,
    {
        self.languages
    }

    /// How many overlays there are.
    pub fn huds(&self) -> (out: u32)
        ensures
            out == self@.huds,
    {
        self.huds
    }

    /// The sizes offered for the virtual desktop.
    pub fn resolutions(&self) -> (out: &Vec<(u64, u64)>)
        ensures
            out@ == self@.resolutions,
    {
        &self.resolutions
    }

    /// The frame rate limits offered.
    pub fn fps_limits(&self) -> (out: &Vec<u64>)
        ensures
            out@ == self@.fps_limits,
    {
        &self.fps_limits
    }

    /// The slot of the row of sizes that stands for `width` by `height`.
    pub fn resolution_slot(&self, width: u64, height: u64) -> (out: u32)
        ensures
            out == self@.resolution_slot(width, height),
    {
        proof {
            use_type_invariant(self);
            assert(self.resolutions@.take(self.resolutions.len() as int) =~= self.resolutions@);
        }
        size_slot_in(&self.resolutions, self.resolutions.len(), width, height)
    }

    /// The slot of the row of limits that stands for `fps`.
    pub fn fps_slot(&self, fps: u64) -> (out: u32)
        ensures
            out == self@.fps_slot(fps),
    {
        proof {
            use_type_invariant(self);
            assert(self.fps_limits@.take(self.fps_limits.len() as int) =~= self.fps_limits@);
        }
        limit_slot_in(&self.fps_limits, self.fps_limits.len(), fps)
    }

    /// The size behind a slot of the row of sizes.
    pub fn resolution_at(&self, slot: u32) -> (out: Option<(u64, u64)>)
        ensures
            out == self@.resolution_at(slot),
    {
        if slot == 0 || slot as usize > self.resolutions.len() {
            None
        } else {
            Some(self.resolutions[slot as usize - 1])
        }
    }

    /// The limit behind a slot of the row of limits.
    pub fn fps_at(&self, slot: u32) -> (out: Option<u64>)
        ensures
            out == self@.fps_at(slot),
    {
        if slot == 0 || slot as usize > self.fps_limits.len() {
            None
        } else {
            Some(self.fps_limits[slot as usize - 1])
        }
    }
}

} // verus!
