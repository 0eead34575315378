//! Volatile statuses and the bitset that holds the ones a side has.
use vstd::prelude::*;

verus! {

/// Statuses that last only while the pokemon stays on the field.
#[derive(Clone, Copy, Debug, PartialEq, Eq, Structural)]
pub enum PokemonVolatileStatus {
    AQUARING,
    ATTRACT,
    BIDE,
    BOUNCE,
    CHARGE,
    CONFUSION,
    CURSE,
    DEFENSECURL,
    DESTINYBOND,
    DIG,
    DISABLE,
    DIVE,
    ENCORE,
    ENDURE,
    FLINCH,
    FLY,
    FOCUSENERGY,
    FORESIGHT,
    HELPINGHAND,
    INGRAIN,
    LEECHSEED,
    LIGHTSCREEN,
    LOCKEDMOVE,
    MINIMIZE,
    MUSTRECHARGE,
    NIGHTMARE,
    PARTIALLYTRAPPED,
    PERISH1,
    PERISH2,
    PERISH3,
    PERISH4,
    PROTECT,
    RAGE,
    RAZORWIND,
    REFLECT,
    ROOST,
    SKULLBASH,
    SKYATTACK,
    SOLARBEAM,
    SUBSTITUTE,
    TAUNT,
    TORMENT,
    TYPECHANGE,
    UPROAR,
    YAWN,
}

/// Number of volatile statuses; each owns one bit of the bitset.
pub const VOLATILE_STATUS_COUNT: u8 = 45;

impl PokemonVolatileStatus {
    /// The bit that stands for this status, in declaration order.
    pub open spec fn bit(self) -> int {
        match self {
            PokemonVolatileStatus::AQUARING => 0,
            PokemonVolatileStatus::ATTRACT => 1,
            PokemonVolatileStatus::BIDE => 2,
            PokemonVolatileStatus::BOUNCE => 3,
            PokemonVolatileStatus::CHARGE => 4,
            PokemonVolatileStatus::CONFUSION => 5,
            PokemonVolatileStatus::CURSE => 6,
            PokemonVolatileStatus::DEFENSECURL => 7,
            PokemonVolatileStatus::DESTINYBOND => 8,
            PokemonVolatileStatus::DIG => 9,
            PokemonVolatileStatus::DISABLE => 10,
            PokemonVolatileStatus::DIVE => 11,
            PokemonVolatileStatus::ENCORE => 12,
            PokemonVolatileStatus::ENDURE => 13,
            PokemonVolatileStatus::FLINCH => 14,
            PokemonVolatileStatus::FLY => 15,
            PokemonVolatileStatus::FOCUSENERGY => 16,
            PokemonVolatileStatus::FORESIGHT => 17,
            PokemonVolatileStatus::HELPINGHAND => 18,
            PokemonVolatileStatus::INGRAIN => 19,
            PokemonVolatileStatus::LEECHSEED => 20,
            PokemonVolatileStatus::LIGHTSCREEN => 21,
            PokemonVolatileStatus::LOCKEDMOVE => 22,
            PokemonVolatileStatus::MINIMIZE => 23,
            PokemonVolatileStatus::MUSTRECHARGE => 24,
            PokemonVolatileStatus::NIGHTMARE => 25,
            PokemonVolatileStatus::PARTIALLYTRAPPED => 26,
            PokemonVolatileStatus::PERISH1 => 27,
            PokemonVolatileStatus::PERISH2 => 28,
            PokemonVolatileStatus::PERISH3 => 29,
            PokemonVolatileStatus::PERISH4 => 30,
            PokemonVolatileStatus::PROTECT => 31,
            PokemonVolatileStatus::RAGE => 32,
            PokemonVolatileStatus::RAZORWIND => 33,
            PokemonVolatileStatus::REFLECT => 34,
            PokemonVolatileStatus::ROOST => 35,
            PokemonVolatileStatus::SKULLBASH => 36,
            PokemonVolatileStatus::SKYATTACK => 37,
            PokemonVolatileStatus::SOLARBEAM => 38,
            PokemonVolatileStatus::SUBSTITUTE => 39,
            PokemonVolatileStatus::TAUNT => 40,
            PokemonVolatileStatus::TORMENT => 41,
            PokemonVolatileStatus::TYPECHANGE => 42,
            PokemonVolatileStatus::UPROAR => 43,
            PokemonVolatileStatus::YAWN => 44,
        }
    }

    /// The status whose bit is `i`, if any.
    pub open spec fn from_bit(i: int) -> Option<PokemonVolatileStatus> {
        if i == 0 {
            Some(PokemonVolatileStatus::AQUARING)
        } else if i == 1 {
            Some(PokemonVolatileStatus::ATTRACT)
        } else if i == 2 {
            Some(PokemonVolatileStatus::BIDE)
        } else if i == 3 {
            Some(PokemonVolatileStatus::BOUNCE)
        } else if i == 4 {
            Some(PokemonVolatileStatus::CHARGE)
        } else if i == 5 {
            Some(PokemonVolatileStatus::CONFUSION)
        } else if i == 6 {
            Some(PokemonVolatileStatus::CURSE)
        } else if i == 7 {
            Some(PokemonVolatileStatus::DEFENSECURL)
        } else if i == 8 {
            Some(PokemonVolatileStatus::DESTINYBOND)
        } else if i == 9 {
            Some(PokemonVolatileStatus::DIG)
        } else if i == 10 {
            Some(PokemonVolatileStatus::DISABLE)
        } else if i == 11 {
            Some(PokemonVolatileStatus::DIVE)
        } else if i == 12 {
            Some(PokemonVolatileStatus::ENCORE)
        } else if i == 13 {
            Some(PokemonVolatileStatus::ENDURE)
        } else if i == 14 {
            Some(PokemonVolatileStatus::FLINCH)
        } else if i == 15 {
            Some(PokemonVolatileStatus::FLY)
        } else if i == 16 {
            Some(PokemonVolatileStatus::FOCUSENERGY)
        } else if i == 17 {
            Some(PokemonVolatileStatus::FORESIGHT)
        } else if i == 18 {
            Some(PokemonVolatileStatus::HELPINGHAND)
        } else if i == 19 {
            Some(PokemonVolatileStatus::INGRAIN)
        } else if i == 20 {
            Some(PokemonVolatileStatus::LEECHSEED)
        } else if i == 21 {
            Some(PokemonVolatileStatus::LIGHTSCREEN)
        } else if i == 22 {
            Some(PokemonVolatileStatus::LOCKEDMOVE)
        } else if i == 23 {
            Some(PokemonVolatileStatus::MINIMIZE)
        } else if i == 24 {
            Some(PokemonVolatileStatus::MUSTRECHARGE)
        } else if i == 25 {
            Some(PokemonVolatileStatus::NIGHTMARE)
        } else if i == 26 {
            Some(PokemonVolatileStatus::PARTIALLYTRAPPED)
        } else if i == 27 {
            Some(PokemonVolatileStatus::PERISH1)
        } else if i == 28 {
            Some(PokemonVolatileStatus::PERISH2)
        } else if i == 29 {
            Some(PokemonVolatileStatus::PERISH3)
        } else if i == 30 {
            Some(PokemonVolatileStatus::PERISH4)
        } else if i == 31 {
            Some(PokemonVolatileStatus::PROTECT)
        } else if i == 32 {
            Some(PokemonVolatileStatus::RAGE)
        } else if i == 33 {
            Some(PokemonVolatileStatus::RAZORWIND)
        } else if i == 34 {
            Some(PokemonVolatileStatus::REFLECT)
        } else if i == 35 {
            Some(PokemonVolatileStatus::ROOST)
        } else if i == 36 {
            Some(PokemonVolatileStatus::SKULLBASH)
        } else if i == 37 {
            Some(PokemonVolatileStatus::SKYATTACK)
        } else if i == 38 {
            Some(PokemonVolatileStatus::SOLARBEAM)
        } else if i == 39 {
            Some(PokemonVolatileStatus::SUBSTITUTE)
        } else if i == 40 {
            Some(PokemonVolatileStatus::TAUNT)
        } else if i == 41 {
            Some(PokemonVolatileStatus::TORMENT)
        } else if i == 42 {
            Some(PokemonVolatileStatus::TYPECHANGE)
        } else if i == 43 {
            Some(PokemonVolatileStatus::UPROAR)
        } else if i == 44 {
            Some(PokemonVolatileStatus::YAWN)
        } else {
            None
        }
    }

    pub fn bit_index(&self) -> (r: u8)
        ensures
            r == self.bit(),
            r < VOLATILE_STATUS_COUNT,
    {
        match self {
            PokemonVolatileStatus::AQUARING => 0,
            PokemonVolatileStatus::ATTRACT => 1,
            PokemonVolatileStatus::BIDE => 2,
            PokemonVolatileStatus::BOUNCE => 3,
            PokemonVolatileStatus::CHARGE => 4,
            PokemonVolatileStatus::CONFUSION => 5,
            PokemonVolatileStatus::CURSE => 6,
            PokemonVolatileStatus::DEFENSECURL => 7,
            PokemonVolatileStatus::DESTINYBOND => 8,
            PokemonVolatileStatus::DIG => 9,
            PokemonVolatileStatus::DISABLE => 10,
            PokemonVolatileStatus::DIVE => 11,
            PokemonVolatileStatus::ENCORE => 12,
            PokemonVolatileStatus::ENDURE => 13,
            PokemonVolatileStatus::FLINCH => 14,
            PokemonVolatileStatus::FLY => 15,
            PokemonVolatileStatus::FOCUSENERGY => 16,
            PokemonVolatileStatus::FORESIGHT => 17,
            PokemonVolatileStatus::HELPINGHAND => 18,
            PokemonVolatileStatus::INGRAIN => 19,
            PokemonVolatileStatus::LEECHSEED => 20,
            PokemonVolatileStatus::LIGHTSCREEN => 21,
            PokemonVolatileStatus::LOCKEDMOVE => 22,
            PokemonVolatileStatus::MINIMIZE => 23,
            PokemonVolatileStatus::MUSTRECHARGE => 24,
            PokemonVolatileStatus::NIGHTMARE => 25,
            PokemonVolatileStatus::PARTIALLYTRAPPED => 26,
            PokemonVolatileStatus::PERISH1 => 27,
            PokemonVolatileStatus::PERISH2 => 28,
            PokemonVolatileStatus::PERISH3 => 29,
            PokemonVolatileStatus::PERISH4 => 30,
            PokemonVolatileStatus::PROTECT => 31,
            PokemonVolatileStatus::RAGE => 32,
            PokemonVolatileStatus::RAZORWIND => 33,
            PokemonVolatileStatus::REFLECT => 34,
            PokemonVolatileStatus::ROOST => 35,
            PokemonVolatileStatus::SKULLBASH => 36,
            PokemonVolatileStatus::SKYATTACK => 37,
            PokemonVolatileStatus::SOLARBEAM => 38,
            PokemonVolatileStatus::SUBSTITUTE => 39,
            PokemonVolatileStatus::TAUNT => 40,
            PokemonVolatileStatus::TORMENT => 41,
            PokemonVolatileStatus::TYPECHANGE => 42,
            PokemonVolatileStatus::UPROAR => 43,
            PokemonVolatileStatus::YAWN => 44,
        }
    }

    pub fn from_bit_index(i: u8) -> (r: Option<PokemonVolatileStatus>)
        ensures
            r == PokemonVolatileStatus::from_bit(i as int),
    {
        if i == 0 {
            Some(PokemonVolatileStatus::AQUARING)
        } else if i == 1 {
            Some(PokemonVolatileStatus::ATTRACT)
        } else if i == 2 {
            Some(PokemonVolatileStatus::BIDE)
        } else if i == 3 {
            Some(PokemonVolatileStatus::BOUNCE)
        } else if i == 4 {
            Some(PokemonVolatileStatus::CHARGE)
        } else if i == 5 {
            Some(PokemonVolatileStatus::CONFUSION)
        } else if i == 6 {
            Some(PokemonVolatileStatus::CURSE)
        } else if i == 7 {
            Some(PokemonVolatileStatus::DEFENSECURL)
        } else if i == 8 {
            Some(PokemonVolatileStatus::DESTINYBOND)
        } else if i == 9 {
            Some(PokemonVolatileStatus::DIG)
        } else if i == 10 {
            Some(PokemonVolatileStatus::DISABLE)
        } else if i == 11 {
            Some(PokemonVolatileStatus::DIVE)
        } else if i == 12 {
            Some(PokemonVolatileStatus::ENCORE)
        } else if i == 13 {
            Some(PokemonVolatileStatus::ENDURE)
        } else if i == 14 {
            Some(PokemonVolatileStatus::FLINCH)
        } else if i == 15 {
            Some(PokemonVolatileStatus::FLY)
        } else if i == 16 {
            Some(PokemonVolatileStatus::FOCUSENERGY)
        } else if i == 17 {
            Some(PokemonVolatileStatus::FORESIGHT)
        } else if i == 18 {
            Some(PokemonVolatileStatus::HELPINGHAND)
        } else if i == 19 {
            Some(PokemonVolatileStatus::INGRAIN)
        } else if i == 20 {
            Some(PokemonVolatileStatus::LEECHSEED)
        } else if i == 21 {
            Some(PokemonVolatileStatus::LIGHTSCREEN)
        } else if i == 22 {
            Some(PokemonVolatileStatus::LOCKEDMOVE)
        } else if i == 23 {
            Some(PokemonVolatileStatus::MINIMIZE)
        } else if i == 24 {
            Some(PokemonVolatileStatus::MUSTRECHARGE)
        } else if i == 25 {
            Some(PokemonVolatileStatus::NIGHTMARE)
        } else if i == 26 {
            Some(PokemonVolatileStatus::PARTIALLYTRAPPED)
        } else if i == 27 {
            Some(PokemonVolatileStatus::PERISH1)
        } else if i == 28 {
            Some(PokemonVolatileStatus::PERISH2)
        } else if i == 29 {
            Some(PokemonVolatileStatus::PERISH3)
        } else if i == 30 {
            Some(PokemonVolatileStatus::PERISH4)
        } else if i == 31 {
            Some(PokemonVolatileStatus::PROTECT)
        } else if i == 32 {
            Some(PokemonVolatileStatus::RAGE)
        } else if i == 33 {
            Some(PokemonVolatileStatus::RAZORWIND)
        } else if i == 34 {
            Some(PokemonVolatileStatus::REFLECT)
        } else if i == 35 {
            Some(PokemonVolatileStatus::ROOST)
        } else if i == 36 {
            Some(PokemonVolatileStatus::SKULLBASH)
        } else if i == 37 {
            Some(PokemonVolatileStatus::SKYATTACK)
        } else if i == 38 {
            Some(PokemonVolatileStatus::SOLARBEAM)
        } else if i == 39 {
            Some(PokemonVolatileStatus::SUBSTITUTE)
        } else if i == 40 {
            Some(PokemonVolatileStatus::TAUNT)
        } else if i == 41 {
            Some(PokemonVolatileStatus::TORMENT)
        } else if i == 42 {
            Some(PokemonVolatileStatus::TYPECHANGE)
        } else if i == 43 {
            Some(PokemonVolatileStatus::UPROAR)
        } else if i == 44 {
            Some(PokemonVolatileStatus::YAWN)
        } else {
            None
        }
    }
}

/// Each status owns a distinct bit in `0..VOLATILE_STATUS_COUNT`, and the bit
/// names the status back.
pub proof fn lemma_bit_round_trip(v: PokemonVolatileStatus)
    ensures
        0 <= v.bit() < VOLATILE_STATUS_COUNT,
        PokemonVolatileStatus::from_bit(v.bit()) == Some(v),
{
}

/// Every bit below `VOLATILE_STATUS_COUNT` names a status, and only those do.
pub proof fn lemma_from_bit(i: int)
    ensures
        PokemonVolatileStatus::from_bit(i) is Some <==> 0 <= i < VOLATILE_STATUS_COUNT,
        PokemonVolatileStatus::from_bit(i) matches Some(v) ==> v.bit() == i,
{
}

/// Distinct statuses own distinct bits.
pub proof fn lemma_bit_injective(v: PokemonVolatileStatus, w: PokemonVolatileStatus)
    ensures
        v.bit() == w.bit() ==> v == w,
{
    lemma_bit_round_trip(v);
    lemma_bit_round_trip(w);
}

/// Whether bit `i` of `bits` is set.
pub open spec fn bit_is_set(bits: u128, i: u128) -> bool {
    (bits >> i) & 1u128 == 1u128
}

proof fn lemma_no_bit_in_zero()
    by (bit_vector)
    ensures
        forall|j: u128| j < 128 ==> !bit_is_set(0u128, j),
{
}

proof fn lemma_set_bit(bits: u128, i: u128, j: u128)
    by (bit_vector)
    requires
        i < 128,
        j < 128,
    ensures
        bit_is_set(bits | (1u128 << i), j) == (bit_is_set(bits, j) || j == i),
{
}

proof fn lemma_clear_bit(bits: u128, i: u128, j: u128)
    by (bit_vector)
    requires
        i < 128,
        j < 128,
    ensures
        bit_is_set(bits & !(1u128 << i), j) == (bit_is_set(bits, j) && j != i),
{
}

proof fn lemma_set_bit_keeps_high_bits_clear(bits: u128, i: u128, n: u128)
    by (bit_vector)
    requires
        i < n <= 128,
        bits >> n == 0,
    ensures
        (bits | (1u128 << i)) >> n == 0,
        (bits & !(1u128 << i)) >> n == 0,
{
}

proof fn lemma_set_cleared_bit(bits: u128, i: u128)
    by (bit_vector)
    requires
        i < 128,
        bit_is_set(bits, i),
    ensures
        (bits & !(1u128 << i)) | (1u128 << i) == bits,
{
}

proof fn lemma_shift_step(a: u128, b: u128, k: u128)
    by (bit_vector)
    requires
        0 < k <= 128,
        a >> k == b >> k,
        bit_is_set(a, (k - 1) as u128) == bit_is_set(b, (k - 1) as u128),
    ensures
        a >> ((k - 1) as u128) == b >> ((k - 1) as u128),
{
}

proof fn lemma_shift_zero(a: u128)
    by (bit_vector)
    ensures
        a >> 0u128 == a,
{
}

proof fn lemma_bits_equal(a: u128, b: u128, k: u128)
    requires
        k <= 128,
        a >> k == b >> k,
        forall|j: u128| j < k ==> bit_is_set(a, j) == bit_is_set(b, j),
    ensures
        a == b,
    decreases k,
{
    if k == 0 {
        lemma_shift_zero(a);
        lemma_shift_zero(b);
    } else {
        lemma_shift_step(a, b, k);
        lemma_bits_equal(a, b, (k - 1) as u128);
    }
}

/// The set of volatile statuses a side has, one bit per status.
#[derive(Clone, Copy, Debug)]
pub struct VolatileStatusBitset {
    bits: u128,
}

impl View for VolatileStatusBitset {
    type V = Set<PokemonVolatileStatus>;

    closed spec fn view(&self) -> Set<PokemonVolatileStatus> {
        Set::new(|v: PokemonVolatileStatus| bit_is_set(self.bits, v.bit() as u128))
    }
}

impl VolatileStatusBitset {
    /// Only the bits that stand for a status are ever set.
    #[verifier::type_invariant]
    pub closed spec fn inv(self) -> bool {
        self.bits >> (VOLATILE_STATUS_COUNT as u128) == 0
    }

    /// The set with `v` taken out.
    pub closed spec fn with_removed(self, v: PokemonVolatileStatus) -> VolatileStatusBitset {
        VolatileStatusBitset { bits: self.bits & !(1u128 << (v.bit() as u128)) }
    }

    /// The set with `v` put in.
    pub closed spec fn with_inserted(self, v: PokemonVolatileStatus) -> VolatileStatusBitset {
        VolatileStatusBitset { bits: self.bits | (1u128 << (v.bit() as u128)) }
    }

    /// Taking a status out leaves the others, and keeps the invariant.
    pub proof fn lemma_with_removed(self, v: PokemonVolatileStatus)
        ensures
            self.with_removed(v)@ == self@.remove(v),
            self.inv() ==> self.with_removed(v).inv(),
    {
        lemma_bit_round_trip(v);
        let r = self.with_removed(v);
        assert forall|w: PokemonVolatileStatus| r@.contains(w) == self@.remove(v).contains(w) by {
            lemma_bit_round_trip(w);
            lemma_bit_injective(v, w);
            lemma_clear_bit(self.bits, v.bit() as u128, w.bit() as u128);
        }
        assert(r@ =~= self@.remove(v));
        if self.inv() {
            lemma_set_bit_keeps_high_bits_clear(self.bits, v.bit() as u128, VOLATILE_STATUS_COUNT as u128);
        }
    }

    /// Putting a status in leaves the others, and keeps the invariant.
    pub proof fn lemma_with_inserted(self, v: PokemonVolatileStatus)
        ensures
            self.with_inserted(v)@ == self@.insert(v),
            self.inv() ==> self.with_inserted(v).inv(),
    {
        lemma_bit_round_trip(v);
        let r = self.with_inserted(v);
        assert forall|w: PokemonVolatileStatus| r@.contains(w) == self@.insert(v).contains(w) by {
            lemma_bit_round_trip(w);
            lemma_bit_injective(v, w);
            lemma_set_bit(self.bits, v.bit() as u128, w.bit() as u128);
        }
        assert(r@ =~= self@.insert(v));
        if self.inv() {
            lemma_set_bit_keeps_high_bits_clear(self.bits, v.bit() as u128, VOLATILE_STATUS_COUNT as u128);
        }
    }

    /// Putting back a status that was taken out gives the set it was taken
    /// from.
    pub proof fn lemma_insert_undoes_remove(self, v: PokemonVolatileStatus)
        requires
            self@.contains(v),
        ensures
            self.with_removed(v).with_inserted(v) == self,
    {
        lemma_bit_round_trip(v);
        assert(bit_is_set(self.bits, v.bit() as u128));
        lemma_set_cleared_bit(self.bits, v.bit() as u128);
    }

    /// Two sets that keep the invariant are equal when they hold the same
    /// statuses.
    pub proof fn lemma_view_determines_value(self, other: VolatileStatusBitset)
        requires
            self.inv(),
            other.inv(),
            self@ == other@,
        ensures
            self == other,
    {
        assert forall|j: u128| j < VOLATILE_STATUS_COUNT implies bit_is_set(self.bits, j) == bit_is_set(
            other.bits,
            j,
        ) by {
            lemma_from_bit(j as int);
            let v = PokemonVolatileStatus::from_bit(j as int).unwrap();
            assert(v.bit() == j);
            assert(self@.contains(v) == bit_is_set(self.bits, v.bit() as u128));
            assert(other@.contains(v) == bit_is_set(other.bits, v.bit() as u128));
            assert(self@.contains(v) == other@.contains(v));
        }
        lemma_bits_equal(self.bits, other.bits, VOLATILE_STATUS_COUNT as u128);
    }

    /// The empty set.
    pub fn new() -> (r: VolatileStatusBitset)
        ensures
            r@ == Set::<PokemonVolatileStatus>::empty(),
    {
        proof {
            assert(0u128 >> (VOLATILE_STATUS_COUNT as u128) == 0) by (bit_vector);
        }
        let r = VolatileStatusBitset { bits: 0 };
        proof {
            lemma_no_bit_in_zero();
            assert forall|v: PokemonVolatileStatus| !r@.contains(v) by {
                lemma_bit_round_trip(v);
            }
            assert(r@ =~= Set::<PokemonVolatileStatus>::empty());
        }
        r
    }

    pub fn contains(&self, v: &PokemonVolatileStatus) -> (r: bool)
        ensures
            r == self@.contains(*v),
    {
        let i = v.bit_index();
        (self.bits >> (i as u128)) & 1u128 == 1u128
    }

    pub fn insert(&mut self, v: PokemonVolatileStatus)
        ensures
            *final(self) == old(self).with_inserted(v),
            final(self)@ == old(self)@.insert(v),
    {
        proof {
            use_type_invariant(&*self);
            self.lemma_with_inserted(v);
        }
        let i = v.bit_index();
        self.bits = self.bits | (1u128 << (i as u128));
    }

    pub fn remove(&mut self, v: PokemonVolatileStatus)
        ensures
            *final(self) == old(self).with_removed(v),
            final(self)@ == old(self)@.remove(v),
    {
        proof {
            use_type_invariant(&*self);
            self.lemma_with_removed(v);
        }
        let i = v.bit_index();
        self.bits = self.bits & !(1u128 << (i as u128));
    }
}

/// `b` with every status of `statuses` taken out, first to last.
pub open spec fn without_statuses(
    b: VolatileStatusBitset,
    statuses: Seq<PokemonVolatileStatus>,
) -> VolatileStatusBitset
    decreases statuses.len(),
{
    if statuses.len() == 0 {
        b
    } else {
        without_statuses(b, statuses.drop_last()).with_removed(statuses.last())
    }
}

/// Taking out several statuses leaves exactly the others.
pub proof fn lemma_without_statuses(b: VolatileStatusBitset, statuses: Seq<PokemonVolatileStatus>)
    ensures
        forall|v: PokemonVolatileStatus|
            #[trigger] without_statuses(b, statuses)@.contains(v) == (b@.contains(v) && !statuses.contains(v)),
    decreases statuses.len(),
{
    if statuses.len() > 0 {
        let prev = statuses.drop_last();
        lemma_without_statuses(b, prev);
        without_statuses(b, prev).lemma_with_removed(statuses.last());
        assert forall|v: PokemonVolatileStatus|
            #[trigger] without_statuses(b, statuses)@.contains(v) == (b@.contains(v) && !statuses.contains(v)) by {
            if prev.contains(v) {
                let k = choose|k: int| 0 <= k < prev.len() && prev[k] == v;
                assert(statuses[k] == v);
            }
            if statuses.contains(v) && v != statuses.last() {
                let k = choose|k: int| 0 <= k < statuses.len() && statuses[k] == v;
                assert(k != statuses.len() - 1);
                assert(prev[k] == v);
            }
        }
    }
}

} // verus!
