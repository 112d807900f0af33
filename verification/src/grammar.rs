//! The grammatical classes a word can belong to, and sets of them.
//!
//! A set of classes is kept as one byte, in which each class has a weight:
//! the byte is the sum of the weights of the members. The rule table writes
//! its sets in this way, and `RuleTypeSet` holds one.

use vstd::prelude::*;

verus! {

/// The grammatical type of a word, which determines the rules that can be
/// applied to it.
#[derive(Debug, Clone, Copy, PartialEq, Eq, Structural)]
pub enum RuleType {
    /// i-adjective
    AdjI,
    /// progressive or stative auxiliary form
    Iru,
    /// ichidan verb
    V1,
    /// godan verb
    V5,
    /// kuru-irregular verb
    Vk,
    /// suru-irregular verb
    Vs,
    /// zuru-irregular verb
    Vz,
}

/// The encoding of the empty set of classes.
pub const NONE: u8 = 0;

/// The weight of the i-adjective in the encoding of a set of classes. The
/// encoding of a set is the sum of the weights of its members.
pub const ADJ_I: u8 = 1;

/// The weight of the auxiliary form.
pub const IRU: u8 = 2;

/// The weight of the ichidan verb.
pub const V1: u8 = 4;

/// The weight of the godan verb.
pub const V5: u8 = 8;

/// The weight of the kuru-irregular verb.
pub const VK: u8 = 16;

/// The weight of the suru-irregular verb.
pub const VS: u8 = 32;

/// The weight of the zuru-irregular verb.
pub const VZ: u8 = 64;

/// The classes, in the order in which a set lists its members.
pub const CLASSES: [RuleType; 7] = [
    RuleType::AdjI,
    RuleType::Iru,
    RuleType::V1,
    RuleType::V5,
    RuleType::Vk,
    RuleType::Vs,
    RuleType::Vz,
];

impl RuleType {
    /// The weight of this class in the encoding of a set of classes.
    pub open spec fn bit(self) -> u8 {
        match self {
            RuleType::AdjI => ADJ_I,
            RuleType::Iru => IRU,
            RuleType::V1 => V1,
            RuleType::V5 => V5,
            RuleType::Vk => VK,
            RuleType::Vs => VS,
            RuleType::Vz => VZ,
        }
    }

    /// Whether the class is a class of verbs: every class but the
    /// i-adjective.
    pub fn is_verb(&self) -> (r: bool)
        ensures
            r == (*self != RuleType::AdjI),
    {
        !self.is_adjective()
    }

    /// Whether the class is the i-adjective.
    pub fn is_adjective(&self) -> (r: bool)
        ensures
            r == (*self == RuleType::AdjI),
    {
        match self {
            RuleType::AdjI => true,
            _ => false,
        }
    }

    /// The weight of this class, computed.
    fn mask(self) -> (m: u8)
        ensures
            m == self.bit(),
    {
        match self {
            RuleType::AdjI => ADJ_I,
            RuleType::Iru => IRU,
            RuleType::V1 => V1,
            RuleType::V5 => V5,
            RuleType::Vk => VK,
            RuleType::Vs => VS,
            RuleType::Vz => VZ,
        }
    }
}

/// Whether the encoding `bits` holds the class `t`.
pub open spec fn bits_have(bits: u8, t: RuleType) -> bool {
    (bits / t.bit()) % 2 == 1
}

/// The set of classes that the encoding `bits` stands for.
pub open spec fn set_of_bits(bits: u8) -> Set<RuleType> {
    Set::new(|t: RuleType| bits_have(bits, t))
}

/// The encoding of a set of classes: the sum of the weights of its members.
pub open spec fn bits_of_set(s: Set<RuleType>) -> u8 {
    ((if s.contains(RuleType::AdjI) { 1int } else { 0 })
        + (if s.contains(RuleType::Iru) { 2int } else { 0 })
        + (if s.contains(RuleType::V1) { 4int } else { 0 })
        + (if s.contains(RuleType::V5) { 8int } else { 0 })
        + (if s.contains(RuleType::Vk) { 16int } else { 0 })
        + (if s.contains(RuleType::Vs) { 32int } else { 0 })
        + (if s.contains(RuleType::Vz) { 64int } else { 0 })) as u8
}

/// The members of `s` among the first `n` classes, in the order of the
/// classes.
pub open spec fn members(s: Set<RuleType>, n: int) -> Seq<RuleType>
    decreases n,
{
    if n <= 0 {
        Seq::empty()
    } else if s.contains(CLASSES[n - 1]) {
        members(s, n - 1).push(CLASSES[n - 1])
    } else {
        members(s, n - 1)
    }
}

/// A set of grammatical classes.
#[derive(Debug, Clone, Copy, PartialEq, Eq, Structural)]
pub struct RuleTypeSet {
    bits: u8,
}

impl View for RuleTypeSet {
    type V = Set<RuleType>;

    closed spec fn view(&self) -> Set<RuleType> {
        set_of_bits(self.bits)
    }
}

impl RuleTypeSet {
    #[verifier::type_invariant]
    spec fn in_range(self) -> bool {
        self.bits < 128
    }

    /// The empty set.
    pub fn empty() -> (s: RuleTypeSet)
        ensures
            s@ == Set::<RuleType>::empty(),
    {
        let s = RuleTypeSet { bits: 0 };
        assert(s@ =~= Set::<RuleType>::empty());
        s
    }

    /// The set of the classes that the slice holds.
    pub fn from_slice(types: &[RuleType]) -> (s: RuleTypeSet)
        ensures
            s@ == types@.to_set(),
    {
        let mut bits: u8 = 0;
        let mut i: usize = 0;
        assert(set_of_bits(0) =~= types@.take(0).to_set());
        while i < types.len()
            invariant
                i <= types.len(),
                bits < 128,
                set_of_bits(bits) == types@.take(i as int).to_set(),
            decreases types.len() - i,
        {
            let t = types[i];
            proof {
                lemma_set_of_bits_with(bits, t);
                assert(types@.take(i + 1) =~= types@.take(i as int).push(t));
                types@.take(i as int).lemma_push_to_set_commute(t);
            }
            bits = bits | t.mask();
            i += 1;
        }
        assert(types@.take(i as int) =~= types@);
        RuleTypeSet { bits }
    }

    /// The set that `bits` encodes. The bit above the seven weights does
    /// not count.
    pub fn from_bits(bits: u8) -> (s: RuleTypeSet)
        ensures
            s@ == set_of_bits(bits),
    {
        proof {
            lemma_set_of_low_bits(bits);
        }
        RuleTypeSet { bits: bits & 127 }
    }

    /// The encoding of this set.
    pub fn to_bits(&self) -> (bits: u8)
        ensures
            bits == bits_of_set(self@),
    {
        proof {
            use_type_invariant(self);
            lemma_bits_of_set_of_bits(self.bits);
        }
        self.bits
    }

    /// The members of the set, in the order of the classes.
    pub fn to_vec(&self) -> (list: Vec<RuleType>)
        ensures
            list@ == members(self@, 7),
    {
        let classes = &CLASSES;
        let mut list: Vec<RuleType> = Vec::new();
        let mut i: usize = 0;
        while i < 7
            invariant
                i <= 7,
                *classes == CLASSES,
                list@ == members(self@, i as int),
            decreases 7 - i,
        {
            let t = classes[i];
            if self.contains(t) {
                list.push(t);
            }
            i += 1;
        }
        list
    }

    /// Whether the set holds no class.
    pub fn is_empty(&self) -> (r: bool)
        ensures
            r == (self@ == Set::<RuleType>::empty()),
    {
        proof {
            use_type_invariant(self);
            lemma_bits_of_set_of_bits(self.bits);
            if self.bits == 0 {
                assert(self@ =~= Set::<RuleType>::empty());
            }
        }
        self.bits == 0
    }

    /// Whether the set holds the class `t`.
    pub fn contains(&self, t: RuleType) -> (r: bool)
        ensures
            r == self@.contains(t),
    {
        let m = t.mask();
        let bits = self.bits;
        proof {
            lemma_weight_of_class(t);
        }
        assert((m == 1 || m == 2 || m == 4 || m == 8 || m == 16 || m == 32 || m == 64) ==> ((bits
            & m != 0) == ((bits / m) % 2 == 1))) by (bit_vector);
        bits & m != 0
    }

    /// Whether the two sets have a class in common.
    pub fn intersects(&self, other: &RuleTypeSet) -> (r: bool)
        ensures
            r == exists|t: RuleType| self@.contains(t) && other@.contains(t),
    {
        let a = self.bits;
        let b = other.bits;
        proof {
            use_type_invariant(self);
            use_type_invariant(other);
            lemma_common_bit(a, b);
            if a & b != 0 {
                let t = if both_have(a, b, 1) {
                    RuleType::AdjI
                } else if both_have(a, b, 2) {
                    RuleType::Iru
                } else if both_have(a, b, 4) {
                    RuleType::V1
                } else if both_have(a, b, 8) {
                    RuleType::V5
                } else if both_have(a, b, 16) {
                    RuleType::Vk
                } else if both_have(a, b, 32) {
                    RuleType::Vs
                } else {
                    RuleType::Vz
                };
                assert(self@.contains(t) && other@.contains(t));
            } else {
                assert forall|t: RuleType| !(self@.contains(t) && other@.contains(t)) by {
                    lemma_weight_of_class(t);
                }
            }
        }
        a & b != 0
    }

    /// Whether the set holds a class other than the i-adjective.
    pub fn has_verb(&self) -> (r: bool)
        ensures
            r == exists|t: RuleType| self@.contains(t) && t != RuleType::AdjI,
    {
        let verbs = RuleTypeSet::from_bits(126);
        assert forall|t: RuleType| verbs@.contains(t) == (t != RuleType::AdjI) by {
            assert(verbs@.contains(t) == bits_have(126, t));
            lemma_weight_of_class(t);
            assert(126u8 / 1 % 2 == 0);
            assert(126u8 / 2 % 2 == 1);
            assert(126u8 / 4 % 2 == 1);
            assert(126u8 / 8 % 2 == 1);
            assert(126u8 / 16 % 2 == 1);
            assert(126u8 / 32 % 2 == 1);
            assert(126u8 / 64 % 2 == 1);
        }
        self.intersects(&verbs)
    }
}

/// Whether both encodings hold the class of weight `m`.
pub open spec fn both_have(a: u8, b: u8, m: u8) -> bool {
    (a / m) % 2 == 1 && (b / m) % 2 == 1
}

/// The weight of a class is one of the seven weights, and tells the class.
pub proof fn lemma_weight_of_class(t: RuleType)
    ensures
        t.bit() == 1 <==> t == RuleType::AdjI,
        t.bit() == 2 <==> t == RuleType::Iru,
        t.bit() == 4 <==> t == RuleType::V1,
        t.bit() == 8 <==> t == RuleType::V5,
        t.bit() == 16 <==> t == RuleType::Vk,
        t.bit() == 32 <==> t == RuleType::Vs,
        t.bit() == 64 <==> t == RuleType::Vz,
        t.bit() == 1 || t.bit() == 2 || t.bit() == 4 || t.bit() == 8 || t.bit() == 16 || t.bit()
            == 32 || t.bit() == 64,
{
}

/// Encoding a set and decoding it again gives the set back.
pub proof fn lemma_set_of_bits_of_set(s: Set<RuleType>)
    ensures
        set_of_bits(bits_of_set(s)) == s,
        bits_of_set(s) < 128,
{
    let bits = bits_of_set(s);
    assert(s.contains(RuleType::AdjI) == ((bits / 1) % 2 == 1));
    assert(s.contains(RuleType::Iru) == ((bits / 2) % 2 == 1));
    assert(s.contains(RuleType::V1) == ((bits / 4) % 2 == 1));
    assert(s.contains(RuleType::V5) == ((bits / 8) % 2 == 1));
    assert(s.contains(RuleType::Vk) == ((bits / 16) % 2 == 1));
    assert(s.contains(RuleType::Vs) == ((bits / 32) % 2 == 1));
    assert(s.contains(RuleType::Vz) == ((bits / 64) % 2 == 1));
    assert forall|t: RuleType| bits_have(bits, t) == s.contains(t) by {
        lemma_weight_of_class(t);
    }
    assert(set_of_bits(bits_of_set(s)) =~= s);
}

/// Decoding a seven-bit encoding and encoding it again gives it back.
pub proof fn lemma_bits_of_set_of_bits(bits: u8)
    requires
        bits < 128,
    ensures
        bits_of_set(set_of_bits(bits)) == bits,
{
    assert(bits < 128 ==> bits == (bits / 1) % 2 + 2 * ((bits / 2) % 2) + 4 * ((bits / 4) % 2) + 8
        * ((bits / 8) % 2) + 16 * ((bits / 16) % 2) + 32 * ((bits / 32) % 2) + 64 * ((bits / 64)
        % 2)) by (bit_vector);
    let s = set_of_bits(bits);
    assert(s.contains(RuleType::AdjI) == ((bits / 1) % 2 == 1));
    assert(s.contains(RuleType::Iru) == ((bits / 2) % 2 == 1));
    assert(s.contains(RuleType::V1) == ((bits / 4) % 2 == 1));
    assert(s.contains(RuleType::V5) == ((bits / 8) % 2 == 1));
    assert(s.contains(RuleType::Vk) == ((bits / 16) % 2 == 1));
    assert(s.contains(RuleType::Vs) == ((bits / 32) % 2 == 1));
    assert(s.contains(RuleType::Vz) == ((bits / 64) % 2 == 1));
}

/// Only the seven low bits of an encoding count.
pub proof fn lemma_set_of_low_bits(bits: u8)
    ensures
        set_of_bits(bits & 127) == set_of_bits(bits),
        bits & 127 < 128,
{
    let low = bits & 127;
    assert(bits & 127 < 128) by (bit_vector);
    assert(((bits & 127) / 1) % 2 == (bits / 1) % 2 && ((bits & 127) / 2) % 2 == (bits / 2) % 2
        && ((bits & 127) / 4) % 2 == (bits / 4) % 2 && ((bits & 127) / 8) % 2 == (bits / 8) % 2
        && ((bits & 127) / 16) % 2 == (bits / 16) % 2 && ((bits & 127) / 32) % 2 == (bits / 32)
        % 2 && ((bits & 127) / 64) % 2 == (bits / 64) % 2) by (bit_vector);
    assert forall|t: RuleType| bits_have(low, t) == bits_have(bits, t) by {
        lemma_weight_of_class(t);
    }
    assert(set_of_bits(low) =~= set_of_bits(bits));
}

/// Setting the bit of a class in an encoding adds the class to the set.
pub proof fn lemma_set_of_bits_with(bits: u8, t: RuleType)
    requires
        bits < 128,
    ensures
        bits | t.bit() < 128,
        set_of_bits(bits | t.bit()) == set_of_bits(bits).insert(t),
{
    let m = t.bit();
    let with = bits | m;
    lemma_weight_of_class(t);
    assert(bits < 128 && (m == 1 || m == 2 || m == 4 || m == 8 || m == 16 || m == 32 || m == 64)
        ==> (bits | m) < 128 && (((bits | m) / 1) % 2 == 1) == (m == 1 || (bits / 1) % 2 == 1)
        && (((bits | m) / 2) % 2 == 1) == (m == 2 || (bits / 2) % 2 == 1) && (((bits | m) / 4) % 2
        == 1) == (m == 4 || (bits / 4) % 2 == 1) && (((bits | m) / 8) % 2 == 1) == (m == 8 || (
    bits / 8) % 2 == 1) && (((bits | m) / 16) % 2 == 1) == (m == 16 || (bits / 16) % 2 == 1) && (((
    bits | m) / 32) % 2 == 1) == (m == 32 || (bits / 32) % 2 == 1) && (((bits | m) / 64) % 2 == 1)
        == (m == 64 || (bits / 64) % 2 == 1)) by (bit_vector);
    assert forall|u: RuleType| bits_have(with, u) == (u == t || bits_have(bits, u)) by {
        lemma_weight_of_class(u);
    }
    assert(set_of_bits(with) =~= set_of_bits(bits).insert(t));
}

/// Two seven-bit encodings have a bit in common where both hold one of the
/// classes.
proof fn lemma_common_bit(a: u8, b: u8)
    requires
        a < 128,
        b < 128,
    ensures
        (a & b != 0) == (both_have(a, b, 1) || both_have(a, b, 2) || both_have(a, b, 4)
            || both_have(a, b, 8) || both_have(a, b, 16) || both_have(a, b, 32) || both_have(
            a,
            b,
            64,
        )),
{
    assert(a < 128 && b < 128 ==> ((a & b != 0) == (((a / 1) % 2 == 1 && (b / 1) % 2 == 1) || ((a
        / 2) % 2 == 1 && (b / 2) % 2 == 1) || ((a / 4) % 2 == 1 && (b / 4) % 2 == 1) || ((a / 8)
        % 2 == 1 && (b / 8) % 2 == 1) || ((a / 16) % 2 == 1 && (b / 16) % 2 == 1) || ((a / 32) % 2
        == 1 && (b / 32) % 2 == 1) || ((a / 64) % 2 == 1 && (b / 64) % 2 == 1)))) by (bit_vector);
}

} // verus!
