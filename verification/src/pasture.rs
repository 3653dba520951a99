//! A player's pasture and the rules for placing herds on it.

use crate::board::{lemma_intersects_iff_shares_cell, Coords, Herd, PASTURE_SIZE};
use crate::error::{Span, ValidationError};
use crate::msg::{Shots, ShotsView};
use vstd::multiset::Multiset;
use vstd::prelude::*;

verus! {

/// One player's board: the herds that stand on it, and the shots that its
/// owner has fired at the other pasture.
#[derive(Debug, PartialEq)]
pub struct Pasture {
    /// The herds, in the order in which the player listed them.
    pub herds: Vec<Herd>,
    /// The shots that the owner has fired, oldest first.
    pub shots: Vec<Coords>,
}

/// What a pasture holds, as mathematical sequences.
#[verifier::ext_equal]
pub struct PastureView {
    pub herds: Seq<Herd>,
    pub shots: Seq<Coords>,
}

impl View for Pasture {
    type V = PastureView;

    open spec fn view(&self) -> PastureView {
        PastureView { herds: self.herds@, shots: self.shots@ }
    }
}

/// The lengths of the given herds, each as often as a herd has it.
pub open spec fn herd_lengths(herds: Seq<Herd>) -> Multiset<u8> {
    herds.map_values(|herd: Herd| herd.length).to_multiset()
}

/// The lengths that the herds of a pasture have to have: one herd of two
/// sheep, two of three, one of four and one of five.
pub open spec fn required_herd_lengths() -> Multiset<u8> {
    Multiset::empty().insert(2u8).insert(3u8).insert(3u8).insert(4u8).insert(5u8)
}

/// The number of sheep in the given herds.
pub open spec fn sheep(herds: Seq<Herd>) -> nat
    decreases herds.len(),
{
    if herds.len() == 0 {
        0
    } else {
        sheep(herds.drop_last()) + herds.last().length as nat
    }
}

/// The cells between which `herd` stretches.
pub open spec fn span_of(herd: Herd) -> Span {
    Span { start: herd.coords, end: herd.spec_end() }
}

impl PastureView {
    /// Every herd has sheep and stands inside the pasture.
    pub open spec fn all_herds_valid(self) -> bool {
        forall|i: int| 0 <= i < self.herds.len() ==> (#[trigger] self.herds[i]).valid()
    }

    /// The herds have exactly the required lengths.
    pub open spec fn counts_match(self) -> bool {
        herd_lengths(self.herds) =~= required_herd_lengths()
    }

    /// No cell carries sheep of two herds.
    pub open spec fn herds_apart(self) -> bool {
        forall|a: int, b: int|
            #![trigger self.herds[a], self.herds[b]]
            0 <= a < self.herds.len() && 0 <= b < self.herds.len() && a != b
                ==> !self.herds[a].shares_cell(&self.herds[b])
    }

    /// The pasture obeys all the placement rules.
    pub open spec fn accepted(self) -> bool {
        self.all_herds_valid() && self.counts_match() && self.herds_apart()
    }

    /// The herd at `i` is the first in the list that is not valid.
    pub open spec fn first_invalid_herd(self, i: int) -> bool {
        &&& 0 <= i < self.herds.len()
        &&& !self.herds[i].valid()
        &&& forall|k: int| 0 <= k < i ==> (#[trigger] self.herds[k]).valid()
    }

    /// `length` is the smallest length of which the pasture does not hold
    /// the required number of herds.
    pub open spec fn first_miscounted_length(self, length: u8) -> bool {
        &&& herd_lengths(self.herds).count(length) != required_herd_lengths().count(length)
        &&& forall|l: u8|
            l < length ==> #[trigger] herd_lengths(self.herds).count(l)
                == required_herd_lengths().count(l)
    }

    /// The herd at `first` is the first in the list that shares a cell with
    /// another one, and the herd at `second` is the first that it shares a
    /// cell with.
    pub open spec fn first_overlap(self, first: int, second: int) -> bool {
        &&& 0 <= first < self.herds.len()
        &&& 0 <= second < self.herds.len()
        &&& first != second
        &&& self.herds[first].shares_cell(&self.herds[second])
        &&& forall|a: int, b: int|
            #![trigger self.herds[a], self.herds[b]]
            0 <= a < first && 0 <= b < self.herds.len() && a != b ==> !self.herds[a].shares_cell(
                &self.herds[b],
            )
        &&& forall|b: int|
            #![trigger self.herds[b]]
            0 <= b < second && b != first ==> !self.herds[first].shares_cell(&self.herds[b])
    }

    /// Whether `checked` is the answer that the placement rules give for this
    /// pasture. The rules are taken in a fixed order, and the first breach
    /// is the one reported:
    /// - the first herd in the list that is not valid;
    /// - else the smallest length of which there are too few or too many
    ///   herds, with the required and the actual number;
    /// - else the first herd that shares a cell with another, together with
    ///   the first herd that it shares a cell with, and the spans of both.
    pub open spec fn verdict(self, checked: Result<(), ValidationError>) -> bool {
        match checked {
            Ok(()) => self.accepted(),
            Err(ValidationError::InvalidHerd { herd }) => exists|i: int|
                #![auto]
                self.first_invalid_herd(i) && herd == self.herds[i],
            Err(ValidationError::WrongHerdCount { length, expected, actual }) => {
                &&& self.all_herds_valid()
                &&& self.first_miscounted_length(length)
                &&& expected == required_herd_lengths().count(length)
                &&& actual == herd_lengths(self.herds).count(length)
            },
            Err(ValidationError::OverlappingHerds { first, first_span, second, second_span }) => {
                &&& self.all_herds_valid()
                &&& self.counts_match()
                &&& self.first_overlap(first as int, second as int)
                &&& first_span == span_of(self.herds[first as int])
                &&& second_span == span_of(self.herds[second as int])
            },
        }
    }

    /// Whether a shot at `cell` hits a sheep of this pasture.
    pub open spec fn is_hit(self, cell: Coords) -> bool {
        exists|i: int| 0 <= i < self.herds.len() && (#[trigger] self.herds[i]).occupies(cell)
    }

    /// The shots among `shots` that hit a sheep of this pasture, and those
    /// that hit none, each in the order in which they were fired.
    pub open spec fn classify(self, shots: Seq<Coords>) -> ShotsView {
        ShotsView {
            hits: shots.filter(|shot: Coords| self.is_hit(shot)),
            misses: shots.filter(|shot: Coords| !self.is_hit(shot)),
        }
    }
}

/// How many herds of `length` sheep a pasture has to hold.
pub fn expected_herd_count_of_length(length: u8) -> (count: u32)
    ensures
        count == required_herd_lengths().count(length),
{
    broadcast use vstd::multiset::group_multiset_properties;

    match length {
        2 => 1,
        3 => 2,
        4 => 1,
        5 => 1,
        _ => 0,
    }
}

impl Clone for Pasture {
    fn clone(&self) -> (copy: Pasture)
        ensures
            copy@ == self@,
    {
        Pasture { herds: self.herds.clone(), shots: self.shots.clone() }
    }
}

impl Default for Pasture {
    /// A pasture without herds, from which no shot was fired.
    fn default() -> (pasture: Pasture)
        ensures
            pasture@ == (PastureView { herds: Seq::empty(), shots: Seq::empty() }),
    {
        Pasture { herds: Vec::new(), shots: Vec::new() }
    }
}

impl Pasture {
    /// The pasture with the given herds, from which the given shots were
    /// fired.
    pub fn new(herds: Vec<Herd>, shots: Vec<Coords>) -> (pasture: Pasture)
        ensures
            pasture@ == (PastureView { herds: herds@, shots: shots@ }),
    {
        Pasture { herds, shots }
    }

    /// Counts the herds that have `length` sheep.
    fn count_herds_of_length(&self, length: u8) -> (count: usize)
        ensures
            count == herd_lengths(self@.herds).count(length),
    {
        let mut count: usize = 0;
        let mut i: usize = 0;
        proof {
            lemma_herd_lengths_empty();
            assert(self.herds@.take(0) =~= Seq::empty());
        }
        while i < self.herds.len()
            invariant
                i <= self.herds.len(),
                count <= i,
                count == herd_lengths(self.herds@.take(i as int)).count(length),
            decreases self.herds.len() - i,
        {
            proof {
                broadcast use vstd::multiset::group_multiset_properties;

                lemma_herd_lengths_push(self.herds@.take(i as int), self.herds@[i as int]);
                assert(self.herds@.take(i as int).push(self.herds@[i as int])
                    =~= self.herds@.take(i + 1));
            }
            if self.herds[i].length == length {
                count += 1;
            }
            i += 1;
        }
        assert(self.herds@.take(i as int) =~= self.herds@);
        count
    }

    /// Tells whether a shot at `cell` hits a sheep of this pasture.
    pub fn is_hit(&self, cell: Coords) -> (hit: bool)
        ensures
            hit == self@.is_hit(cell),
    {
        let mut i: usize = 0;
        while i < self.herds.len()
            invariant
                i <= self.herds.len(),
                forall|k: int| 0 <= k < i ==> !(#[trigger] self.herds@[k]).occupies(cell),
            decreases self.herds.len() - i,
        {
            if self.herds[i].is_at(cell) {
                assert(self@.herds[i as int].occupies(cell));
                return true;
            }
            i += 1;
        }
        false
    }

    /// Tells the given shots apart by what they did to this pasture: the
    /// hits and the misses, each in the order in which they were fired.
    pub fn classify(&self, shots: &Vec<Coords>) -> (sorted: Shots)
        ensures
            sorted@ == self@.classify(shots@),
    {
        let mut hits: Vec<Coords> = Vec::new();
        let mut misses: Vec<Coords> = Vec::new();
        let mut i: usize = 0;
        proof {
            lemma_classify_nothing(self@);
        }
        while i < shots.len()
            invariant
                i <= shots.len(),
                (ShotsView { hits: hits@, misses: misses@ }) == self@.classify(
                    shots@.take(i as int),
                ),
            decreases shots.len() - i,
        {
            let shot = shots[i];
            proof {
                lemma_classify_one_more(shots@.take(i as int), shot, self@);
                assert(shots@.take(i as int).push(shot) =~= shots@.take(i + 1));
            }
            if self.is_hit(shot) {
                hits.push(shot);
            } else {
                misses.push(shot);
            }
            i += 1;
        }
        assert(shots@.take(i as int) =~= shots@);
        Shots { hits, misses }
    }

    /// Checks the pasture against the placement rules: every herd has sheep
    /// and stands inside the pasture, the herds have exactly the required
    /// lengths, and no two of them share a cell. The pasture is accepted
    /// where it obeys all of them; else the first breach is reported, in
    /// the order that `PastureView::verdict` lays down.
    pub fn verify(&self) -> (checked: Result<(), ValidationError>)
        ensures
            checked is Ok <==> self@.accepted(),
            self@.verdict(checked),
    {
        let n: usize = self.herds.len();
        let mut i: usize = 0;
        while i < n
            invariant
                n == self.herds.len(),
                i <= n,
                forall|k: int| 0 <= k < i ==> (#[trigger] self.herds@[k]).valid(),
            decreases n - i,
        {
            match self.herds[i].verify() {
                Ok(()) => {},
                Err(e) => {
                    assert(self@.first_invalid_herd(i as int));
                    return Err(e);
                },
            }
            i += 1;
        }

        let mut length: u8 = 0;
        loop
            invariant_except_break
                self@.all_herds_valid(),
                forall|l: u8|
                    l < length ==> #[trigger] herd_lengths(self@.herds).count(l)
                        == required_herd_lengths().count(l),
            ensures
                forall|l: u8|
                    #[trigger] herd_lengths(self@.herds).count(l) == required_herd_lengths().count(
                        l,
                    ),
            decreases u8::MAX - length,
        {
            let expected: usize = expected_herd_count_of_length(length) as usize;
            let actual: usize = self.count_herds_of_length(length);
            if expected != actual {
                return Err(ValidationError::WrongHerdCount { length, expected, actual });
            }
            if length == u8::MAX {
                break;
            }
            length += 1;
        }

        let mut first: usize = 0;
        while first < n
            invariant
                n == self.herds.len(),
                first <= n,
                self@.all_herds_valid(),
                self@.counts_match(),
                forall|a: int, b: int|
                    #![trigger self.herds@[a], self.herds@[b]]
                    0 <= a < first && 0 <= b < n && a != b ==> !self.herds@[a].shares_cell(
                        &self.herds@[b],
                    ),
            decreases n - first,
        {
            let mut second: usize = 0;
            while second < n
                invariant
                    n == self.herds.len(),
                    first < n,
                    second <= n,
                    self@.all_herds_valid(),
                    self@.counts_match(),
                    forall|a: int, b: int|
                        #![trigger self.herds@[a], self.herds@[b]]
                        0 <= a < first && 0 <= b < n && a != b ==> !self.herds@[a].shares_cell(
                            &self.herds@[b],
                        ),
                    forall|b: int|
                        #![trigger self.herds@[b]]
                        0 <= b < second && b != first ==> !self.herds@[first as int].shares_cell(
                            &self.herds@[b],
                        ),
                decreases n - second,
            {
                if first != second {
                    proof {
                        lemma_intersects_iff_shares_cell(
                            self.herds@[first as int],
                            self.herds@[second as int],
                        );
                    }
                    if self.herds[first].intersects(&self.herds[second]) {
                        return Err(
                            ValidationError::OverlappingHerds {
                                first,
                                first_span: Span {
                                    start: self.herds[first].coords,
                                    end: self.herds[first].end(),
                                },
                                second,
                                second_span: Span {
                                    start: self.herds[second].coords,
                                    end: self.herds[second].end(),
                                },
                            },
                        );
                    }
                }
                second += 1;
            }
            first += 1;
        }
        Ok(())
    }
}

/// Where there are no herds, there are no lengths.
pub proof fn lemma_herd_lengths_empty()
    ensures
        herd_lengths(Seq::empty()) =~= Multiset::empty(),
{
    broadcast use vstd::multiset::group_multiset_properties;

    let lengths = Seq::<Herd>::empty().map_values(|herd: Herd| herd.length);
    lengths.to_multiset_ensures();
}

/// One more herd adds its length to the lengths of the others.
pub proof fn lemma_herd_lengths_push(herds: Seq<Herd>, herd: Herd)
    ensures
        herd_lengths(herds.push(herd)) =~= herd_lengths(herds).insert(herd.length),
{
    broadcast use vstd::seq_lib::to_multiset_build;

    let lengths = |herd: Herd| herd.length;
    assert(herds.push(herd).map_values(lengths) =~= herds.map_values(lengths).push(herd.length));
}

/// The required lengths, counted out: one herd of two sheep, two of three,
/// one of four, one of five, five herds in all.
pub proof fn lemma_required_herd_lengths()
    ensures
        required_herd_lengths() =~= seq![2u8, 3u8, 3u8, 4u8, 5u8].to_multiset(),
        required_herd_lengths().len() == 5,
        forall|length: u8|
            #[trigger] required_herd_lengths().count(length) == if length == 3 {
                2nat
            } else if length == 2 || length == 4 || length == 5 {
                1nat
            } else {
                0nat
            },
{
    broadcast use {vstd::multiset::group_multiset_properties, vstd::seq_lib::to_multiset_build};

    let lengths = seq![2u8, 3u8, 3u8, 4u8, 5u8];
    assert(lengths =~= Seq::<u8>::empty().push(2u8).push(3u8).push(3u8).push(4u8).push(5u8));
    Seq::<u8>::empty().to_multiset_ensures();
}

/// An accepted pasture holds exactly five herds, and their lengths are 2, 3,
/// 3, 4 and 5 in some order.
pub proof fn lemma_accepted_herd_lengths(pasture: PastureView)
    requires
        pasture.accepted(),
    ensures
        herd_lengths(pasture.herds) =~= seq![2u8, 3u8, 3u8, 4u8, 5u8].to_multiset(),
        pasture.herds.len() == 5,
        forall|i: int|
            0 <= i < pasture.herds.len() ==> 2 <= (#[trigger] pasture.herds[i]).length <= 5,
{
    lemma_required_herd_lengths();
    let lengths = pasture.herds.map_values(|herd: Herd| herd.length);
    lengths.to_multiset_ensures();
    assert forall|i: int| 0 <= i < pasture.herds.len() implies 2 <= (
    #[trigger] pasture.herds[i]).length <= 5 by {
        assert(required_herd_lengths().count(lengths[i]) > 0);
    }
}

/// An accepted pasture holds seventeen sheep.
pub proof fn lemma_accepted_pasture_holds_seventeen_sheep(pasture: PastureView)
    requires
        pasture.accepted(),
    ensures
        sheep(pasture.herds) == 17,
{
    broadcast use vstd::multiset::group_multiset_properties;

    lemma_accepted_herd_lengths(pasture);
    lemma_required_herd_lengths();
    lemma_herd_lengths_empty();
    let herds = pasture.herds;
    let none = Seq::<Herd>::empty();
    let one = none.push(herds[0]);
    let two = one.push(herds[1]);
    let three = two.push(herds[2]);
    let four = three.push(herds[3]);
    let five = four.push(herds[4]);
    lemma_herd_lengths_push(none, herds[0]);
    lemma_herd_lengths_push(one, herds[1]);
    lemma_herd_lengths_push(two, herds[2]);
    lemma_herd_lengths_push(three, herds[3]);
    lemma_herd_lengths_push(four, herds[4]);
    assert(five =~= herds);
    assert(five.drop_last() =~= four);
    assert(four.drop_last() =~= three);
    assert(three.drop_last() =~= two);
    assert(two.drop_last() =~= one);
    assert(one.drop_last() =~= none);
    assert(sheep(none) == 0);
    assert(sheep(one) == sheep(none) + herds[0].length);
    assert(sheep(two) == sheep(one) + herds[1].length);
    assert(sheep(three) == sheep(two) + herds[2].length);
    assert(sheep(four) == sheep(three) + herds[3].length);
    assert(sheep(five) == sheep(four) + herds[4].length);
    assert(herd_lengths(herds).count(2) == 1);
    assert(herd_lengths(herds).count(3) == 2);
    assert(herd_lengths(herds).count(4) == 1);
    assert(herd_lengths(herds).count(5) == 1);
}

/// Every herd of an accepted pasture has sheep and ends inside the pasture,
/// and so does every cell that it occupies.
pub proof fn lemma_accepted_herds_inside(pasture: PastureView, i: int, cell: Coords)
    requires
        pasture.accepted(),
        0 <= i < pasture.herds.len(),
    ensures
        pasture.herds[i].length > 0,
        pasture.herds[i].spec_end().x < PASTURE_SIZE,
        pasture.herds[i].spec_end().y < PASTURE_SIZE,
        pasture.herds[i].occupies(cell) ==> cell.x < PASTURE_SIZE && cell.y < PASTURE_SIZE,
{
}

/// No cell carries sheep of two herds of an accepted pasture.
pub proof fn lemma_accepted_herds_apart(pasture: PastureView, i: int, j: int, cell: Coords)
    requires
        pasture.accepted(),
        0 <= i < pasture.herds.len(),
        0 <= j < pasture.herds.len(),
        i != j,
    ensures
        !(pasture.herds[i].occupies(cell) && pasture.herds[j].occupies(cell)),
{
}

/// An accepted pasture is answered with `Ok`, and only an accepted one is.
pub proof fn lemma_verdict_of_accepted(pasture: PastureView, checked: Result<(), ValidationError>)
    requires
        pasture.verdict(checked),
    ensures
        checked is Ok <==> pasture.accepted(),
{
    match checked {
        Err(ValidationError::InvalidHerd { herd }) => {
            let i = choose|i: int|
                #![auto]
                pasture.first_invalid_herd(i) && herd == pasture.herds[i];
            assert(!pasture.herds[i].valid());
        },
        Err(ValidationError::WrongHerdCount { length, .. }) => {
            assert(herd_lengths(pasture.herds).count(length) != required_herd_lengths().count(
                length,
            ));
        },
        _ => {},
    }
}

/// The placement rules give one answer for a pasture, and no other.
pub proof fn lemma_verdict_is_unique(
    pasture: PastureView,
    one: Result<(), ValidationError>,
    other: Result<(), ValidationError>,
)
    requires
        pasture.verdict(one),
        pasture.verdict(other),
    ensures
        one == other,
{
    lemma_verdict_of_accepted(pasture, one);
    lemma_verdict_of_accepted(pasture, other);
    if pasture.counts_match() {
        assert(forall|l: u8|
            #[trigger] herd_lengths(pasture.herds).count(l) == required_herd_lengths().count(l));
    }
    match (one, other) {
        (Ok(_), Ok(_)) => {
            assert(one->Ok_0 == () && other->Ok_0 == ());
        },
        (
            Err(ValidationError::InvalidHerd { herd: a }),
            Err(ValidationError::InvalidHerd { herd: b }),
        ) => {
            let i = choose|i: int| #![auto] pasture.first_invalid_herd(i) && a == pasture.herds[i];
            let j = choose|j: int| #![auto] pasture.first_invalid_herd(j) && b == pasture.herds[j];
            assert(i == j);
        },
        (Err(ValidationError::InvalidHerd { herd }), _) | (
            _,
            Err(ValidationError::InvalidHerd { herd }),
        ) => {
            let i = choose|i: int|
                #![auto]
                pasture.first_invalid_herd(i) && herd == pasture.herds[i];
            assert(!pasture.herds[i].valid());
        },
        _ => {},
    }
}

/// No shots, no hits and no misses.
pub proof fn lemma_classify_nothing(target: PastureView)
    ensures
        target.classify(Seq::empty()) == (ShotsView { hits: Seq::empty(), misses: Seq::empty() }),
{
    reveal(Seq::filter);
}

/// One more shot comes last among the hits where it hits a sheep of the
/// target, and last among the misses where it hits none.
pub proof fn lemma_classify_one_more(shots: Seq<Coords>, shot: Coords, target: PastureView)
    ensures
        target.classify(shots.push(shot)) == if target.is_hit(shot) {
            ShotsView { hits: target.classify(shots).hits.push(shot), ..target.classify(shots) }
        } else {
            ShotsView {
                misses: target.classify(shots).misses.push(shot),
                ..target.classify(shots)
            }
        },
{
    reveal(Seq::filter);
    assert(shots.push(shot).drop_last() =~= shots);
}

/// Telling shots apart loses none and invents none: every shot is either
/// among the hits or among the misses, as often as it was fired; the hits
/// hit a sheep of the target, and the misses hit none.
pub proof fn lemma_classify_partitions(shots: Seq<Coords>, target: PastureView)
    ensures
        target.classify(shots).hits.len() + target.classify(shots).misses.len() == shots.len(),
        target.classify(shots).hits.to_multiset().add(
            target.classify(shots).misses.to_multiset(),
        ) =~= shots.to_multiset(),
        forall|i: int|
            0 <= i < target.classify(shots).hits.len() ==> target.is_hit(
                #[trigger] target.classify(shots).hits[i],
            ),
        forall|i: int|
            0 <= i < target.classify(shots).misses.len() ==> !target.is_hit(
                #[trigger] target.classify(shots).misses[i],
            ),
    decreases shots.len(),
{
    broadcast use {vstd::multiset::group_multiset_properties, vstd::seq_lib::to_multiset_build};

    if shots.len() == 0 {
        lemma_classify_nothing(target);
        assert(shots =~= Seq::empty());
        shots.to_multiset_ensures();
    } else {
        let earlier = shots.drop_last();
        let last = shots.last();
        lemma_classify_partitions(earlier, target);
        lemma_classify_one_more(earlier, last, target);
        assert(earlier.push(last) =~= shots);
        let before = target.classify(earlier);
        let after = target.classify(shots);
        if target.is_hit(last) {
        } else {
        }
    }
}

} // verus!
