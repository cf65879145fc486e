//! The embedding vector: a non-empty, bounded sequence of single-precision
//! components, each held as its IEEE-754 encoding.
use vstd::prelude::*;

use crate::error::EmbeddingError;
use crate::ieee::{is_zero32, is_zero_f32_bits, unit_clamped, clamp_unit, in_unit_interval, is_nan64, F64_ZERO};

verus! {

/// The largest number of components an embedding may have.
pub const MAX_DIMENSION: usize = 65535;

/// A fixed-dimension vector of single-precision components.
///
/// The dimension is fixed at construction and lies in `1..=MAX_DIMENSION`.
/// Only [`Embedding::normalize_bang`] changes the components, and it keeps
/// the dimension.
#[derive(Debug)]
pub struct Embedding {
    values: Vec<u32>,
}

impl View for Embedding {
    type V = Seq<u32>;

    closed spec fn view(&self) -> Seq<u32> {
        self.values@
    }
}

/// A sequence of component encodings that an embedding may hold.
pub open spec fn valid_components(s: Seq<u32>) -> bool {
    1 <= s.len() <= MAX_DIMENSION
}

/// Every component of `s` is zero (of either sign).
pub open spec fn all_zero(s: Seq<u32>) -> bool {
    forall|i: int| 0 <= i < s.len() ==> is_zero32(#[trigger] s[i])
}

/// What construction from `s` yields.
pub open spec fn construction(s: Seq<u32>) -> Result<Seq<u32>, EmbeddingError> {
    if s.len() == 0 {
        Err(EmbeddingError::EmptyInput)
    } else if s.len() > MAX_DIMENSION {
        Err(EmbeddingError::DimensionTooLarge { len: s.len() as usize })
    } else {
        Ok(s)
    }
}

/// The numbers among `items`, in order: what construction reads when every
/// element was a number.
pub open spec fn numbers_of(items: Seq<Option<u32>>) -> Seq<u32> {
    items.map_values(|o: Option<u32>| match o {
        Some(v) => v,
        None => 0u32,
    })
}

/// `index` is the first position of `items` whose element is not a number.
pub open spec fn first_non_numeric(items: Seq<Option<u32>>, index: int) -> bool {
    &&& 0 <= index < items.len()
    &&& items[index] is None
    &&& forall|j: int| 0 <= j < index ==> (#[trigger] items[j]) is Some
}

/// The dimension shared by two embeddings of dimensions `left` and `right`,
/// or the error that reports both.
pub open spec fn agreement(left: nat, right: nat) -> Result<usize, EmbeddingError> {
    if left == right {
        Ok(left as usize)
    } else {
        Err(EmbeddingError::DimensionMismatch { left: left as usize, right: right as usize })
    }
}

/// The cosine similarity of `a` and `b`, given the encoding `quotient` of
/// `dot / sqrt(normA * normB)` as the arithmetic produced it: zero when either
/// vector is a zero vector, else the quotient clamped to [-1, 1].
pub open spec fn cosine_outcome(a: Seq<u32>, b: Seq<u32>, quotient: u64) -> Result<u64, EmbeddingError> {
    if a.len() != b.len() {
        Err(EmbeddingError::DimensionMismatch { left: a.len() as usize, right: b.len() as usize })
    } else if all_zero(a) || all_zero(b) {
        Ok(F64_ZERO)
    } else {
        Ok(unit_clamped(quotient))
    }
}

impl Embedding {
    /// The embedding holds between one and `MAX_DIMENSION` components.
    /// Construction establishes this and every method keeps it.
    pub open spec fn wf(&self) -> bool {
        valid_components(self@)
    }

    /// Builds an embedding from component encodings, in order.
    ///
    /// Refuses an empty sequence and one longer than `MAX_DIMENSION`.
    pub fn from_array(values: Vec<u32>) -> (r: Result<Embedding, EmbeddingError>)
        ensures
            r.is_ok() <==> valid_components(values@),
            match r {
                Ok(e) => construction(values@) == Ok::<Seq<u32>, EmbeddingError>(e@) && e.wf(),
                Err(err) => construction(values@) == Err::<Seq<u32>, EmbeddingError>(err),
            },
    {
        if values.len() == 0 {
            return Err(EmbeddingError::EmptyInput);
        }
        if values.len() > MAX_DIMENSION {
            return Err(EmbeddingError::DimensionTooLarge { len: values.len() });
        }
        Ok(Embedding { values })
    }

    /// Builds an embedding from host elements, each of which is a component
    /// encoding or `None` where the element was not a number.
    ///
    /// The first element that is not a number is reported by its index;
    /// when all are numbers, construction goes on as in `from_array`.
    pub fn from_elements(items: &Vec<Option<u32>>) -> (r: Result<Embedding, EmbeddingError>)
        ensures
            forall|i: int| first_non_numeric(items@, i)
                ==> r == Err::<Embedding, EmbeddingError>(EmbeddingError::NonNumericElement { index: i as usize }),
            (forall|i: int| 0 <= i < items@.len() ==> (#[trigger] items@[i]) is Some) ==> match r {
                Ok(e) => construction(numbers_of(items@)) == Ok::<Seq<u32>, EmbeddingError>(e@) && e.wf(),
                Err(err) => construction(numbers_of(items@)) == Err::<Seq<u32>, EmbeddingError>(err),
            },
    {
        let mut values: Vec<u32> = Vec::new();
        let mut i: usize = 0;
        while i < items.len()
            invariant
                i <= items@.len(),
                values@.len() == i,
                forall|j: int| 0 <= j < i ==> items@[j] == Some(#[trigger] values@[j]),
            decreases items.len() - i,
        {
            match items[i] {
                Some(v) => values.push(v),
                None => {
                    proof {
                        assert forall|k: int| first_non_numeric(items@, k) implies k == i by {
                            if k < i {
                                assert(items@[k] == Some(values@[k]));
                            } else if k > i {
                                assert(items@[i as int] is Some);
                            }
                        }
                    }
                    return Err(EmbeddingError::NonNumericElement { index: i });
                },
            }
            i = i + 1;
        }
        proof {
            assert(values@ =~= numbers_of(items@));
            assert forall|k: int| !first_non_numeric(items@, k) by {
                if 0 <= k < items@.len() {
                    assert(items@[k] == Some(values@[k]));
                }
            }
        }
        Embedding::from_array(values)
    }

    /// Number of components.
    pub fn dim(&self) -> (r: usize)
        ensures
            r == self@.len(),
    {
        self.values.len()
    }

    /// A copy of the component encodings, in order.
    pub fn to_a(&self) -> (r: Vec<u32>)
        ensures
            r@ == self@,
    {
        self.values.clone()
    }

    /// The component at `index`, or `None` when `index` is negative or not
    /// below the dimension.
    pub fn get(&self, index: i64) -> (r: Option<u32>)
        ensures
            0 <= index < self@.len() ==> r == Some(self@[index as int]),
            !(0 <= index < self@.len()) ==> r.is_none(),
    {
        if index < 0 {
            return None;
        }
        if index as u64 >= self.values.len() as u64 {
            return None;
        }
        Some(self.values[index as usize])
    }

    /// Whether every component is zero.
    pub fn is_zero(&self) -> (r: bool)
        ensures
            r == all_zero(self@),
    {
        let mut i: usize = 0;
        while i < self.values.len()
            invariant
                i <= self.values@.len(),
                forall|j: int| 0 <= j < i ==> is_zero32(#[trigger] self.values@[j]),
            decreases self.values.len() - i,
        {
            if !is_zero_f32_bits(self.values[i]) {
                return false;
            }
            i = i + 1;
        }
        true
    }

    /// The dimension that `self` and `other` share, or the error that reports
    /// both dimensions. Every pairwise operation starts with this check.
    pub fn common_dim(&self, other: &Embedding) -> (r: Result<usize, EmbeddingError>)
        ensures
            r == agreement(self@.len(), other@.len()),
    {
        let left = self.values.len();
        let right = other.values.len();
        if left != right {
            return Err(EmbeddingError::DimensionMismatch { left, right });
        }
        Ok(left)
    }

    /// Scales the vector to unit length in place.
    ///
    /// `scale` maps a component's encoding to the encoding of that component
    /// divided by the vector's magnitude. A zero vector is refused with
    /// `ZeroVector` and left as it was; otherwise every component is replaced
    /// by its scaled value, and the dimension is kept. No second vector is
    /// allocated.
    pub fn normalize_bang<F: Fn(u32) -> u32>(&mut self, scale: F) -> (r: Result<(), EmbeddingError>)
        requires
            old(self).wf(),
            forall|x: u32| scale.requires((x,)),
        ensures
            final(self).wf(),
            all_zero(old(self)@) ==> r == Err::<(), EmbeddingError>(EmbeddingError::ZeroVector)
                && final(self)@ == old(self)@,
            !all_zero(old(self)@) ==> r == Ok::<(), EmbeddingError>(())
                && final(self)@.len() == old(self)@.len()
                && forall|i: int| 0 <= i < old(self)@.len()
                    ==> scale.ensures((old(self)@[i],), #[trigger] final(self)@[i]),
    {
        if self.is_zero() {
            return Err(EmbeddingError::ZeroVector);
        }
        let n = self.values.len();
        let mut i: usize = 0;
        while i < n
            invariant
                n == old(self)@.len(),
                self.values@.len() == n,
                valid_components(self.values@),
                i <= n,
                forall|x: u32| scale.requires((x,)),
                forall|j: int| i <= j < n ==> self.values@[j] == old(self)@[j],
                forall|j: int| 0 <= j < i ==> scale.ensures((old(self)@[j],), #[trigger] self.values@[j]),
            decreases n - i,
        {
            let scaled = scale(self.values[i]);
            self.values.set(i, scaled);
            i = i + 1;
        }
        Ok(())
    }

    /// The cosine similarity of `self` and `other`, given `quotient`, the
    /// encoding of `dot / sqrt(normA * normB)` as computed over the two
    /// vectors' components.
    ///
    /// Vectors of different dimensions are refused. When either vector is a
    /// zero vector the similarity is `+0.0`, whatever `quotient` holds;
    /// otherwise it is `quotient` clamped to [-1, 1], so that rounding can
    /// never carry a score out of that interval.
    pub fn cosine_similarity(&self, other: &Embedding, quotient: u64) -> (r: Result<u64, EmbeddingError>)
        ensures
            r == cosine_outcome(self@, other@, quotient),
            r is Err <==> self@.len() != other@.len(),
            r matches Ok(s) ==> in_unit_interval(s) || (s == quotient && is_nan64(quotient)),
    {
        self.common_dim(other)?;
        if self.is_zero() || other.is_zero() {
            return Ok(F64_ZERO);
        }
        Ok(clamp_unit(quotient))
    }
}

} // verus!
