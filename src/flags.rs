//! The four flag vocabularies: environment, table, write and delete flags.
//!
//! Each is a set of bits that the storage engine reads as given, so every
//! named flag carries the engine's own numeric value. Sets combine with
//! bitwise operations; every operation states its result over the raw bits.

use vstd::prelude::*;

verus! {

/// Every bit that names a flag of [`EnvFlags`].
pub const ENV_FLAGS_ALL: u32 = 33505281;

/// Environment flags, set once when an environment is opened.
#[derive(Clone, Copy, Debug, PartialEq, Eq, Structural, PartialOrd, Ord, Hash)]
pub struct EnvFlags {
    bits: u32,
}

impl View for EnvFlags {
    type V = u32;

    closed spec fn view(&self) -> u32 {
        self.bits
    }
}

impl EnvFlags {
    /// Map the data file at a fixed address.
    pub fn fixedmap() -> (r: Self)
        ensures
            r@ == 1u32,
    {
        Self { bits: 1 }
    }

    /// The path names the data file itself, not a directory.
    pub fn no_sub_dir() -> (r: Self)
        ensures
            r@ == 16384u32,
    {
        Self { bits: 16384 }
    }

    /// Do not flush system buffers to disk after a commit.
    pub fn no_sync() -> (r: Self)
        ensures
            r@ == 65536u32,
    {
        Self { bits: 65536 }
    }

    /// Open the environment read-only.
    pub fn read_only() -> (r: Self)
        ensures
            r@ == 131072u32,
    {
        Self { bits: 131072 }
    }

    /// Do not flush the meta page after a commit.
    pub fn no_meta_sync() -> (r: Self)
        ensures
            r@ == 262144u32,
    {
        Self { bits: 262144 }
    }

    /// Use a writable memory map.
    pub fn write_map() -> (r: Self)
        ensures
            r@ == 524288u32,
    {
        Self { bits: 524288 }
    }

    /// Flush the writable map asynchronously.
    pub fn map_async() -> (r: Self)
        ensures
            r@ == 1048576u32,
    {
        Self { bits: 1048576 }
    }

    /// Tie reader slots to transactions rather than threads.
    pub fn no_tls() -> (r: Self)
        ensures
            r@ == 2097152u32,
    {
        Self { bits: 2097152 }
    }

    /// Take no locks; the caller serialises access.
    pub fn no_lock() -> (r: Self)
        ensures
            r@ == 4194304u32,
    {
        Self { bits: 4194304 }
    }

    /// Turn off read-ahead.
    pub fn no_read_ahead() -> (r: Self)
        ensures
            r@ == 8388608u32,
    {
        Self { bits: 8388608 }
    }

    /// Do not zero fresh memory before it is written out.
    pub fn no_mem_init() -> (r: Self)
        ensures
            r@ == 16777216u32,
    {
        Self { bits: 16777216 }
    }

    /// The set with no flag.
    pub fn empty() -> (r: Self)
        ensures
            r@ == 0u32,
    {
        Self { bits: 0 }
    }

    /// The set of every named flag.
    pub fn all() -> (r: Self)
        ensures
            r@ == ENV_FLAGS_ALL,
    {
        Self { bits: ENV_FLAGS_ALL }
    }

    /// The raw bits.
    pub fn bits(&self) -> (r: u32)
        ensures
            r == self@,
    {
        self.bits
    }

    /// The set with these bits, or `None` when a bit names no flag.
    pub fn from_bits(bits: u32) -> (r: Option<Self>)
        ensures
            r is Some <==> bits & !ENV_FLAGS_ALL == 0,
            r is Some ==> r->0@ == bits,
    {
        if bits & !ENV_FLAGS_ALL == 0 {
            Some(Self { bits })
        } else {
            None
        }
    }

    /// The set of the named flags among these bits; the others are dropped.
    pub fn from_bits_truncate(bits: u32) -> (r: Self)
        ensures
            r@ == bits & ENV_FLAGS_ALL,
    {
        Self { bits: bits & ENV_FLAGS_ALL }
    }

    /// The set with these bits, named or not.
    pub fn from_bits_retain(bits: u32) -> (r: Self)
        ensures
            r@ == bits,
    {
        Self { bits }
    }

    /// Whether no bit is set.
    pub fn is_empty(&self) -> (r: bool)
        ensures
            r == (self@ == 0),
    {
        self.bits == 0
    }

    /// Whether every named flag is set.
    pub fn is_all(&self) -> (r: bool)
        ensures
            r == (self@ & ENV_FLAGS_ALL == ENV_FLAGS_ALL),
    {
        self.bits & ENV_FLAGS_ALL == ENV_FLAGS_ALL
    }

    /// Whether every bit of `other` is set here.
    pub fn contains(&self, other: Self) -> (r: bool)
        ensures
            r == (self@ & other@ == other@),
    {
        self.bits & other.bits == other.bits
    }

    /// Whether some bit of `other` is set here.
    pub fn intersects(&self, other: Self) -> (r: bool)
        ensures
            r == (self@ & other@ != 0),
    {
        self.bits & other.bits != 0
    }

    /// The bits set in either.
    pub fn union(self, other: Self) -> (r: Self)
        ensures
            r@ == self@ | other@,
    {
        Self { bits: self.bits | other.bits }
    }

    /// The bits set in both.
    pub fn intersection(self, other: Self) -> (r: Self)
        ensures
            r@ == self@ & other@,
    {
        Self { bits: self.bits & other.bits }
    }

    /// The bits set here and not in `other`.
    pub fn difference(self, other: Self) -> (r: Self)
        ensures
            r@ == self@ & !other@,
    {
        Self { bits: self.bits & !other.bits }
    }

    /// The bits set in exactly one of the two.
    pub fn symmetric_difference(self, other: Self) -> (r: Self)
        ensures
            r@ == self@ ^ other@,
    {
        Self { bits: self.bits ^ other.bits }
    }

    /// The named flags not set here.
    pub fn complement(self) -> (r: Self)
        ensures
            r@ == !self@ & ENV_FLAGS_ALL,
    {
        Self { bits: !self.bits & ENV_FLAGS_ALL }
    }

    /// Sets the bits of `other`.
    pub fn insert(&mut self, other: Self)
        ensures
            final(self)@ == old(self)@ | other@,
    {
        self.bits = self.bits | other.bits;
    }

    /// Clears the bits of `other`.
    pub fn remove(&mut self, other: Self)
        ensures
            final(self)@ == old(self)@ & !other@,
    {
        self.bits = self.bits & !other.bits;
    }

    /// Flips the bits of `other`.
    pub fn toggle(&mut self, other: Self)
        ensures
            final(self)@ == old(self)@ ^ other@,
    {
        self.bits = self.bits ^ other.bits;
    }

    /// Sets the bits of `other` when `value` holds, else clears them.
    pub fn set(&mut self, other: Self, value: bool)
        ensures
            value ==> final(self)@ == old(self)@ | other@,
            !value ==> final(self)@ == old(self)@ & !other@,
    {
        if value {
            self.insert(other);
        } else {
            self.remove(other);
        }
    }
}

/// Every bit that names a flag of [`AllDatabaseFlags`].
pub const ALL_DATABASE_FLAGS_ALL: u32 = 262270;

/// Every flag a table can be opened with.
#[derive(Clone, Copy, Debug, PartialEq, Eq, Structural, PartialOrd, Ord, Hash)]
pub struct AllDatabaseFlags {
    bits: u32,
}

impl View for AllDatabaseFlags {
    type V = u32;

    closed spec fn view(&self) -> u32 {
        self.bits
    }
}

impl AllDatabaseFlags {
    /// Compare keys byte-wise from their last byte to their first.
    pub fn reverse_key() -> (r: Self)
        ensures
            r@ == 2u32,
    {
        Self { bits: 2 }
    }

    /// A key may hold several distinct values, kept sorted.
    pub fn dup_sort() -> (r: Self)
        ensures
            r@ == 4u32,
    {
        Self { bits: 4 }
    }

    /// Keys are native-order integers of one width, compared as numbers.
    pub fn integer_key() -> (r: Self)
        ensures
            r@ == 8u32,
    {
        Self { bits: 8 }
    }

    /// With `DUP_SORT`, the values of a key all have one size.
    pub fn dup_fixed() -> (r: Self)
        ensures
            r@ == 16u32,
    {
        Self { bits: 16 }
    }

    /// With `DUP_SORT`, values are native-order integers.
    pub fn integer_dup() -> (r: Self)
        ensures
            r@ == 32u32,
    {
        Self { bits: 32 }
    }

    /// With `DUP_SORT`, compare values from their last byte to their first.
    pub fn reverse_dup() -> (r: Self)
        ensures
            r@ == 64u32,
    {
        Self { bits: 64 }
    }

    /// Create the table when it does not exist.
    pub fn create() -> (r: Self)
        ensures
            r@ == 262144u32,
    {
        Self { bits: 262144 }
    }

    /// The set with no flag.
    pub fn empty() -> (r: Self)
        ensures
            r@ == 0u32,
    {
        Self { bits: 0 }
    }

    /// The set of every named flag.
    pub fn all() -> (r: Self)
        ensures
            r@ == ALL_DATABASE_FLAGS_ALL,
    {
        Self { bits: ALL_DATABASE_FLAGS_ALL }
    }

    /// The raw bits.
    pub fn bits(&self) -> (r: u32)
        ensures
            r == self@,
    {
        self.bits
    }

    /// The set with these bits, or `None` when a bit names no flag.
    pub fn from_bits(bits: u32) -> (r: Option<Self>)
        ensures
            r is Some <==> bits & !ALL_DATABASE_FLAGS_ALL == 0,
            r is Some ==> r->0@ == bits,
    {
        if bits & !ALL_DATABASE_FLAGS_ALL == 0 {
            Some(Self { bits })
        } else {
            None
        }
    }

    /// The set of the named flags among these bits; the others are dropped.
    pub fn from_bits_truncate(bits: u32) -> (r: Self)
        ensures
            r@ == bits & ALL_DATABASE_FLAGS_ALL,
    {
        Self { bits: bits & ALL_DATABASE_FLAGS_ALL }
    }

    /// The set with these bits, named or not.
    pub fn from_bits_retain(bits: u32) -> (r: Self)
        ensures
            r@ == bits,
    {
        Self { bits }
    }

    /// Whether no bit is set.
    pub fn is_empty(&self) -> (r: bool)
        ensures
            r == (self@ == 0),
    {
        self.bits == 0
    }

    /// Whether every named flag is set.
    pub fn is_all(&self) -> (r: bool)
        ensures
            r == (self@ & ALL_DATABASE_FLAGS_ALL == ALL_DATABASE_FLAGS_ALL),
    {
        self.bits & ALL_DATABASE_FLAGS_ALL == ALL_DATABASE_FLAGS_ALL
    }

    /// Whether every bit of `other` is set here.
    pub fn contains(&self, other: Self) -> (r: bool)
        ensures
            r == (self@ & other@ == other@),
    {
        self.bits & other.bits == other.bits
    }

    /// Whether some bit of `other` is set here.
    pub fn intersects(&self, other: Self) -> (r: bool)
        ensures
            r == (self@ & other@ != 0),
    {
        self.bits & other.bits != 0
    }

    /// The bits set in either.
    pub fn union(self, other: Self) -> (r: Self)
        ensures
            r@ == self@ | other@,
    {
        Self { bits: self.bits | other.bits }
    }

    /// The bits set in both.
    pub fn intersection(self, other: Self) -> (r: Self)
        ensures
            r@ == self@ & other@,
    {
        Self { bits: self.bits & other.bits }
    }

    /// The bits set here and not in `other`.
    pub fn difference(self, other: Self) -> (r: Self)
        ensures
            r@ == self@ & !other@,
    {
        Self { bits: self.bits & !other.bits }
    }

    /// The bits set in exactly one of the two.
    pub fn symmetric_difference(self, other: Self) -> (r: Self)
        ensures
            r@ == self@ ^ other@,
    {
        Self { bits: self.bits ^ other.bits }
    }

    /// The named flags not set here.
    pub fn complement(self) -> (r: Self)
        ensures
            r@ == !self@ & ALL_DATABASE_FLAGS_ALL,
    {
        Self { bits: !self.bits & ALL_DATABASE_FLAGS_ALL }
    }

    /// Sets the bits of `other`.
    pub fn insert(&mut self, other: Self)
        ensures
            final(self)@ == old(self)@ | other@,
    {
        self.bits = self.bits | other.bits;
    }

    /// Clears the bits of `other`.
    pub fn remove(&mut self, other: Self)
        ensures
            final(self)@ == old(self)@ & !other@,
    {
        self.bits = self.bits & !other.bits;
    }

    /// Flips the bits of `other`.
    pub fn toggle(&mut self, other: Self)
        ensures
            final(self)@ == old(self)@ ^ other@,
    {
        self.bits = self.bits ^ other.bits;
    }

    /// Sets the bits of `other` when `value` holds, else clears them.
    pub fn set(&mut self, other: Self, value: bool)
        ensures
            value ==> final(self)@ == old(self)@ | other@,
            !value ==> final(self)@ == old(self)@ & !other@,
    {
        if value {
            self.insert(other);
        } else {
            self.remove(other);
        }
    }
}

/// Every bit that names a flag of [`DatabaseFlags`].
pub const DATABASE_FLAGS_ALL: u32 = 126;

/// The table flags that callers choose; creation is handled apart.
#[derive(Clone, Copy, Debug, PartialEq, Eq, Structural, PartialOrd, Ord, Hash)]
pub struct DatabaseFlags {
    bits: u32,
}

impl View for DatabaseFlags {
    type V = u32;

    closed spec fn view(&self) -> u32 {
        self.bits
    }
}

impl DatabaseFlags {
    /// Compare keys byte-wise from their last byte to their first.
    pub fn reverse_key() -> (r: Self)
        ensures
            r@ == 2u32,
    {
        Self { bits: 2 }
    }

    /// A key may hold several distinct values, kept sorted.
    pub fn dup_sort() -> (r: Self)
        ensures
            r@ == 4u32,
    {
        Self { bits: 4 }
    }

    /// Keys are native-order integers of one width, compared as numbers.
    pub fn integer_key() -> (r: Self)
        ensures
            r@ == 8u32,
    {
        Self { bits: 8 }
    }

    /// With `DUP_SORT`, the values of a key all have one size.
    pub fn dup_fixed() -> (r: Self)
        ensures
            r@ == 16u32,
    {
        Self { bits: 16 }
    }

    /// With `DUP_SORT`, values are native-order integers.
    pub fn integer_dup() -> (r: Self)
        ensures
            r@ == 32u32,
    {
        Self { bits: 32 }
    }

    /// With `DUP_SORT`, compare values from their last byte to their first.
    pub fn reverse_dup() -> (r: Self)
        ensures
            r@ == 64u32,
    {
        Self { bits: 64 }
    }

    /// The set with no flag.
    pub fn empty() -> (r: Self)
        ensures
            r@ == 0u32,
    {
        Self { bits: 0 }
    }

    /// The set of every named flag.
    pub fn all() -> (r: Self)
        ensures
            r@ == DATABASE_FLAGS_ALL,
    {
        Self { bits: DATABASE_FLAGS_ALL }
    }

    /// The raw bits.
    pub fn bits(&self) -> (r: u32)
        ensures
            r == self@,
    {
        self.bits
    }

    /// The set with these bits, or `None` when a bit names no flag.
    pub fn from_bits(bits: u32) -> (r: Option<Self>)
        ensures
            r is Some <==> bits & !DATABASE_FLAGS_ALL == 0,
            r is Some ==> r->0@ == bits,
    {
        if bits & !DATABASE_FLAGS_ALL == 0 {
            Some(Self { bits })
        } else {
            None
        }
    }

    /// The set of the named flags among these bits; the others are dropped.
    pub fn from_bits_truncate(bits: u32) -> (r: Self)
        ensures
            r@ == bits & DATABASE_FLAGS_ALL,
    {
        Self { bits: bits & DATABASE_FLAGS_ALL }
    }

    /// The set with these bits, named or not.
    pub fn from_bits_retain(bits: u32) -> (r: Self)
        ensures
            r@ == bits,
    {
        Self { bits }
    }

    /// Whether no bit is set.
    pub fn is_empty(&self) -> (r: bool)
        ensures
            r == (self@ == 0),
    {
        self.bits == 0
    }

    /// Whether every named flag is set.
    pub fn is_all(&self) -> (r: bool)
        ensures
            r == (self@ & DATABASE_FLAGS_ALL == DATABASE_FLAGS_ALL),
    {
        self.bits & DATABASE_FLAGS_ALL == DATABASE_FLAGS_ALL
    }

    /// Whether every bit of `other` is set here.
    pub fn contains(&self, other: Self) -> (r: bool)
        ensures
            r == (self@ & other@ == other@),
    {
        self.bits & other.bits == other.bits
    }

    /// Whether some bit of `other` is set here.
    pub fn intersects(&self, other: Self) -> (r: bool)
        ensures
            r == (self@ & other@ != 0),
    {
        self.bits & other.bits != 0
    }

    /// The bits set in either.
    pub fn union(self, other: Self) -> (r: Self)
        ensures
            r@ == self@ | other@,
    {
        Self { bits: self.bits | other.bits }
    }

    /// The bits set in both.
    pub fn intersection(self, other: Self) -> (r: Self)
        ensures
            r@ == self@ & other@,
    {
        Self { bits: self.bits & other.bits }
    }

    /// The bits set here and not in `other`.
    pub fn difference(self, other: Self) -> (r: Self)
        ensures
            r@ == self@ & !other@,
    {
        Self { bits: self.bits & !other.bits }
    }

    /// The bits set in exactly one of the two.
    pub fn symmetric_difference(self, other: Self) -> (r: Self)
        ensures
            r@ == self@ ^ other@,
    {
        Self { bits: self.bits ^ other.bits }
    }

    /// The named flags not set here.
    pub fn complement(self) -> (r: Self)
        ensures
            r@ == !self@ & DATABASE_FLAGS_ALL,
    {
        Self { bits: !self.bits & DATABASE_FLAGS_ALL }
    }

    /// Sets the bits of `other`.
    pub fn insert(&mut self, other: Self)
        ensures
            final(self)@ == old(self)@ | other@,
    {
        self.bits = self.bits | other.bits;
    }

    /// Clears the bits of `other`.
    pub fn remove(&mut self, other: Self)
        ensures
            final(self)@ == old(self)@ & !other@,
    {
        self.bits = self.bits & !other.bits;
    }

    /// Flips the bits of `other`.
    pub fn toggle(&mut self, other: Self)
        ensures
            final(self)@ == old(self)@ ^ other@,
    {
        self.bits = self.bits ^ other.bits;
    }

    /// Sets the bits of `other` when `value` holds, else clears them.
    pub fn set(&mut self, other: Self, value: bool)
        ensures
            value ==> final(self)@ == old(self)@ | other@,
            !value ==> final(self)@ == old(self)@ & !other@,
    {
        if value {
            self.insert(other);
        } else {
            self.remove(other);
        }
    }
}

/// Every bit that names a flag of [`PutFlags`].
pub const PUT_FLAGS_ALL: u32 = 393264;

/// Flags of a single write.
#[derive(Clone, Copy, Debug, PartialEq, Eq, Structural, PartialOrd, Ord, Hash)]
pub struct PutFlags {
    bits: u32,
}

impl View for PutFlags {
    type V = u32;

    closed spec fn view(&self) -> u32 {
        self.bits
    }
}

impl PutFlags {
    /// Refuse the pair when exactly this key and value are already stored.
    pub fn no_dup_data() -> (r: Self)
        ensures
            r@ == 32u32,
    {
        Self { bits: 32 }
    }

    /// Refuse the pair when the key is already stored.
    pub fn no_overwrite() -> (r: Self)
        ensures
            r@ == 16u32,
    {
        Self { bits: 16 }
    }

    /// The key is greater than every stored key; a smaller one is refused.
    pub fn append() -> (r: Self)
        ensures
            r@ == 131072u32,
    {
        Self { bits: 131072 }
    }

    /// As `APPEND`, for the values of one key.
    pub fn append_dup() -> (r: Self)
        ensures
            r@ == 262144u32,
    {
        Self { bits: 262144 }
    }

    /// The set with no flag.
    pub fn empty() -> (r: Self)
        ensures
            r@ == 0u32,
    {
        Self { bits: 0 }
    }

    /// The set of every named flag.
    pub fn all() -> (r: Self)
        ensures
            r@ == PUT_FLAGS_ALL,
    {
        Self { bits: PUT_FLAGS_ALL }
    }

    /// The raw bits.
    pub fn bits(&self) -> (r: u32)
        ensures
            r == self@,
    {
        self.bits
    }

    /// The set with these bits, or `None` when a bit names no flag.
    pub fn from_bits(bits: u32) -> (r: Option<Self>)
        ensures
            r is Some <==> bits & !PUT_FLAGS_ALL == 0,
            r is Some ==> r->0@ == bits,
    {
        if bits & !PUT_FLAGS_ALL == 0 {
            Some(Self { bits })
        } else {
            None
        }
    }

    /// The set of the named flags among these bits; the others are dropped.
    pub fn from_bits_truncate(bits: u32) -> (r: Self)
        ensures
            r@ == bits & PUT_FLAGS_ALL,
    {
        Self { bits: bits & PUT_FLAGS_ALL }
    }

    /// The set with these bits, named or not.
    pub fn from_bits_retain(bits: u32) -> (r: Self)
        ensures
            r@ == bits,
    {
        Self { bits }
    }

    /// Whether no bit is set.
    pub fn is_empty(&self) -> (r: bool)
        ensures
            r == (self@ == 0),
    {
        self.bits == 0
    }

    /// Whether every named flag is set.
    pub fn is_all(&self) -> (r: bool)
        ensures
            r == (self@ & PUT_FLAGS_ALL == PUT_FLAGS_ALL),
    {
        self.bits & PUT_FLAGS_ALL == PUT_FLAGS_ALL
    }

    /// Whether every bit of `other` is set here.
    pub fn contains(&self, other: Self) -> (r: bool)
        ensures
            r == (self@ & other@ == other@),
    {
        self.bits & other.bits == other.bits
    }

    /// Whether some bit of `other` is set here.
    pub fn intersects(&self, other: Self) -> (r: bool)
        ensures
            r == (self@ & other@ != 0),
    {
        self.bits & other.bits != 0
    }

    /// The bits set in either.
    pub fn union(self, other: Self) -> (r: Self)
        ensures
            r@ == self@ | other@,
    {
        Self { bits: self.bits | other.bits }
    }

    /// The bits set in both.
    pub fn intersection(self, other: Self) -> (r: Self)
        ensures
            r@ == self@ & other@,
    {
        Self { bits: self.bits & other.bits }
    }

    /// The bits set here and not in `other`.
    pub fn difference(self, other: Self) -> (r: Self)
        ensures
            r@ == self@ & !other@,
    {
        Self { bits: self.bits & !other.bits }
    }

    /// The bits set in exactly one of the two.
    pub fn symmetric_difference(self, other: Self) -> (r: Self)
        ensures
            r@ == self@ ^ other@,
    {
        Self { bits: self.bits ^ other.bits }
    }

    /// The named flags not set here.
    pub fn complement(self) -> (r: Self)
        ensures
            r@ == !self@ & PUT_FLAGS_ALL,
    {
        Self { bits: !self.bits & PUT_FLAGS_ALL }
    }

    /// Sets the bits of `other`.
    pub fn insert(&mut self, other: Self)
        ensures
            final(self)@ == old(self)@ | other@,
    {
        self.bits = self.bits | other.bits;
    }

    /// Clears the bits of `other`.
    pub fn remove(&mut self, other: Self)
        ensures
            final(self)@ == old(self)@ & !other@,
    {
        self.bits = self.bits & !other.bits;
    }

    /// Flips the bits of `other`.
    pub fn toggle(&mut self, other: Self)
        ensures
            final(self)@ == old(self)@ ^ other@,
    {
        self.bits = self.bits ^ other.bits;
    }

    /// Sets the bits of `other` when `value` holds, else clears them.
    pub fn set(&mut self, other: Self, value: bool)
        ensures
            value ==> final(self)@ == old(self)@ | other@,
            !value ==> final(self)@ == old(self)@ & !other@,
    {
        if value {
            self.insert(other);
        } else {
            self.remove(other);
        }
    }
}

/// Every bit that names a flag of [`DeleteFlags`].
pub const DELETE_FLAGS_ALL: u32 = 32;

/// Flags of a single delete.
#[derive(Clone, Copy, Debug, PartialEq, Eq, Structural, PartialOrd, Ord, Hash)]
pub struct DeleteFlags {
    bits: u32,
}

impl View for DeleteFlags {
    type V = u32;

    closed spec fn view(&self) -> u32 {
        self.bits
    }
}

impl DeleteFlags {
    /// Delete every value of the key at once.
    pub fn no_dup_data() -> (r: Self)
        ensures
            r@ == 32u32,
    {
        Self { bits: 32 }
    }

    /// The set with no flag.
    pub fn empty() -> (r: Self)
        ensures
            r@ == 0u32,
    {
        Self { bits: 0 }
    }

    /// The set of every named flag.
    pub fn all() -> (r: Self)
        ensures
            r@ == DELETE_FLAGS_ALL,
    {
        Self { bits: DELETE_FLAGS_ALL }
    }

    /// The raw bits.
    pub fn bits(&self) -> (r: u32)
        ensures
            r == self@,
    {
        self.bits
    }

    /// The set with these bits, or `None` when a bit names no flag.
    pub fn from_bits(bits: u32) -> (r: Option<Self>)
        ensures
            r is Some <==> bits & !DELETE_FLAGS_ALL == 0,
            r is Some ==> r->0@ == bits,
    {
        if bits & !DELETE_FLAGS_ALL == 0 {
            Some(Self { bits })
        } else {
            None
        }
    }

    /// The set of the named flags among these bits; the others are dropped.
    pub fn from_bits_truncate(bits: u32) -> (r: Self)
        ensures
            r@ == bits & DELETE_FLAGS_ALL,
    {
        Self { bits: bits & DELETE_FLAGS_ALL }
    }

    /// The set with these bits, named or not.
    pub fn from_bits_retain(bits: u32) -> (r: Self)
        ensures
            r@ == bits,
    {
        Self { bits }
    }

    /// Whether no bit is set.
    pub fn is_empty(&self) -> (r: bool)
        ensures
            r == (self@ == 0),
    {
        self.bits == 0
    }

    /// Whether every named flag is set.
    pub fn is_all(&self) -> (r: bool)
        ensures
            r == (self@ & DELETE_FLAGS_ALL == DELETE_FLAGS_ALL),
    {
        self.bits & DELETE_FLAGS_ALL == DELETE_FLAGS_ALL
    }

    /// Whether every bit of `other` is set here.
    pub fn contains(&self, other: Self) -> (r: bool)
        ensures
            r == (self@ & other@ == other@),
    {
        self.bits & other.bits == other.bits
    }

    /// Whether some bit of `other` is set here.
    pub fn intersects(&self, other: Self) -> (r: bool)
        ensures
            r == (self@ & other@ != 0),
    {
        self.bits & other.bits != 0
    }

    /// The bits set in either.
    pub fn union(self, other: Self) -> (r: Self)
        ensures
            r@ == self@ | other@,
    {
        Self { bits: self.bits | other.bits }
    }

    /// The bits set in both.
    pub fn intersection(self, other: Self) -> (r: Self)
        ensures
            r@ == self@ & other@,
    {
        Self { bits: self.bits & other.bits }
    }

    /// The bits set here and not in `other`.
    pub fn difference(self, other: Self) -> (r: Self)
        ensures
            r@ == self@ & !other@,
    {
        Self { bits: self.bits & !other.bits }
    }

    /// The bits set in exactly one of the two.
    pub fn symmetric_difference(self, other: Self) -> (r: Self)
        ensures
            r@ == self@ ^ other@,
    {
        Self { bits: self.bits ^ other.bits }
    }

    /// The named flags not set here.
    pub fn complement(self) -> (r: Self)
        ensures
            r@ == !self@ & DELETE_FLAGS_ALL,
    {
        Self { bits: !self.bits & DELETE_FLAGS_ALL }
    }

    /// Sets the bits of `other`.
    pub fn insert(&mut self, other: Self)
        ensures
            final(self)@ == old(self)@ | other@,
    {
        self.bits = self.bits | other.bits;
    }

    /// Clears the bits of `other`.
    pub fn remove(&mut self, other: Self)
        ensures
            final(self)@ == old(self)@ & !other@,
    {
        self.bits = self.bits & !other.bits;
    }

    /// Flips the bits of `other`.
    pub fn toggle(&mut self, other: Self)
        ensures
            final(self)@ == old(self)@ ^ other@,
    {
        self.bits = self.bits ^ other.bits;
    }

    /// Sets the bits of `other` when `value` holds, else clears them.
    pub fn set(&mut self, other: Self, value: bool)
        ensures
            value ==> final(self)@ == old(self)@ | other@,
            !value ==> final(self)@ == old(self)@ & !other@,
    {
        if value {
            self.insert(other);
        } else {
            self.remove(other);
        }
    }
}

} // verus!
