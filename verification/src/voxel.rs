use vstd::prelude::*;

use vstd::std_specs::cmp::PartialEqSpec;

verus! {

/// What the extractor asks of a voxel element type: a zero-like default
/// value, decidable equality that agrees with structural equality, and an
/// emptiness test that tells solid matter from empty space.
pub trait Voxel: Sized + Copy + PartialEq + PartialEqSpec {
    /// The default (zero-like) value; it fills fresh volumes and stands in
    /// for everything outside a volume's region.
    spec fn default_spec() -> Self;

    /// Which values count as empty space.
    spec fn is_empty_spec(self) -> bool;

    fn default_value() -> (r: Self)
        ensures
            r == Self::default_spec(),
    ;

    fn is_empty(self) -> (r: bool)
        ensures
            r == self.is_empty_spec(),
    ;

    /// `==` on this type decides structural equality.
    proof fn lemma_eq_is_structural()
        ensures
            Self::obeys_eq_spec(),
            forall|a: Self, b: Self| #[trigger] a.eq_spec(&b) <==> a == b,
    ;
}

impl Voxel for u8 {
    open spec fn default_spec() -> Self {
        0
    }

    open spec fn is_empty_spec(self) -> bool {
        self == 0
    }

    fn default_value() -> Self {
        0
    }

    fn is_empty(self) -> bool {
        self == 0
    }

    proof fn lemma_eq_is_structural() {
    }
}

impl Voxel for u16 {
    open spec fn default_spec() -> Self {
        0
    }

    open spec fn is_empty_spec(self) -> bool {
        self == 0
    }

    fn default_value() -> Self {
        0
    }

    fn is_empty(self) -> bool {
        self == 0
    }

    proof fn lemma_eq_is_structural() {
    }
}

impl Voxel for u32 {
    open spec fn default_spec() -> Self {
        0
    }

    open spec fn is_empty_spec(self) -> bool {
        self == 0
    }

    fn default_value() -> Self {
        0
    }

    fn is_empty(self) -> bool {
        self == 0
    }

    proof fn lemma_eq_is_structural() {
    }
}

impl Voxel for u64 {
    open spec fn default_spec() -> Self {
        0
    }

    open spec fn is_empty_spec(self) -> bool {
        self == 0
    }

    fn default_value() -> Self {
        0
    }

    fn is_empty(self) -> bool {
        self == 0
    }

    proof fn lemma_eq_is_structural() {
    }
}

impl Voxel for u128 {
    open spec fn default_spec() -> Self {
        0
    }

    open spec fn is_empty_spec(self) -> bool {
        self == 0
    }

    fn default_value() -> Self {
        0
    }

    fn is_empty(self) -> bool {
        self == 0
    }

    proof fn lemma_eq_is_structural() {
    }
}

impl Voxel for usize {
    open spec fn default_spec() -> Self {
        0
    }

    open spec fn is_empty_spec(self) -> bool {
        self == 0
    }

    fn default_value() -> Self {
        0
    }

    fn is_empty(self) -> bool {
        self == 0
    }

    proof fn lemma_eq_is_structural() {
    }
}

impl Voxel for i8 {
    open spec fn default_spec() -> Self {
        0
    }

    open spec fn is_empty_spec(self) -> bool {
        self == 0
    }

    fn default_value() -> Self {
        0
    }

    fn is_empty(self) -> bool {
        self == 0
    }

    proof fn lemma_eq_is_structural() {
    }
}

impl Voxel for i16 {
    open spec fn default_spec() -> Self {
        0
    }

    open spec fn is_empty_spec(self) -> bool {
        self == 0
    }

    fn default_value() -> Self {
        0
    }

    fn is_empty(self) -> bool {
        self == 0
    }

    proof fn lemma_eq_is_structural() {
    }
}

impl Voxel for i32 {
    open spec fn default_spec() -> Self {
        0
    }

    open spec fn is_empty_spec(self) -> bool {
        self == 0
    }

    fn default_value() -> Self {
        0
    }

    fn is_empty(self) -> bool {
        self == 0
    }

    proof fn lemma_eq_is_structural() {
    }
}

impl Voxel for i64 {
    open spec fn default_spec() -> Self {
        0
    }

    open spec fn is_empty_spec(self) -> bool {
        self == 0
    }

    fn default_value() -> Self {
        0
    }

    fn is_empty(self) -> bool {
        self == 0
    }

    proof fn lemma_eq_is_structural() {
    }
}

impl Voxel for i128 {
    open spec fn default_spec() -> Self {
        0
    }

    open spec fn is_empty_spec(self) -> bool {
        self == 0
    }

    fn default_value() -> Self {
        0
    }

    fn is_empty(self) -> bool {
        self == 0
    }

    proof fn lemma_eq_is_structural() {
    }
}

impl Voxel for isize {
    open spec fn default_spec() -> Self {
        0
    }

    open spec fn is_empty_spec(self) -> bool {
        self == 0
    }

    fn default_value() -> Self {
        0
    }

    fn is_empty(self) -> bool {
        self == 0
    }

    proof fn lemma_eq_is_structural() {
    }
}

} // verus!
