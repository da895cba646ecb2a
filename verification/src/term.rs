//! The tagged-value representation and the heap object system: primary tags,
//! the nested immediate-1 and immediate-2 tag levels, the `LTerm` word that
//! carries them, and the header-prefixed heap object kinds a term can box.

pub mod primary;
pub mod imm1;
pub mod imm2;
pub mod lterm;
pub mod classify;
pub mod heapobj;
pub mod ho_bignum;
pub mod ho_binary;
