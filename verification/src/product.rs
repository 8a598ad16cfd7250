//! The `Product` record and the identity of its creator.

use vstd::prelude::*;

verus! {

/// Opaque identity of the caller of an operation, as reported by the hosting
/// execution context. The registry never inspects it; it is only stamped onto
/// records and handed back on queries.
#[derive(Debug, PartialEq, Eq)]
pub struct AccountId {
    pub bytes: Vec<u8>,
}

impl View for AccountId {
    type V = Seq<u8>;

    open spec fn view(&self) -> Seq<u8> {
        self.bytes@
    }
}

impl AccountId {
    pub fn new(bytes: Vec<u8>) -> (r: AccountId)
        ensures
            r@ == bytes@,
    {
        AccountId { bytes }
    }
}

impl Clone for AccountId {
    fn clone(&self) -> (r: Self)
        ensures
            r@ == self@,
    {
        AccountId { bytes: clone_bytes(&self.bytes) }
    }
}

/// A named, priced record stamped with its creator's identity. Immutable once
/// created: no operation of the registry mutates or removes it.
#[derive(Debug, PartialEq, Eq)]
pub struct Product {
    /// Caller-supplied label; arbitrary bytes, unvalidated, possibly empty.
    pub name: Vec<u8>,
    /// Caller-supplied price; unvalidated, any unsigned 64-bit value.
    pub price: u64,
    /// Identity of the caller that created the record, captured at creation
    /// time and never supplied directly by the caller.
    pub owner: AccountId,
}

/// Mathematical model of a `Product`.
pub ghost struct ProductModel {
    pub name: Seq<u8>,
    pub price: u64,
    pub owner: Seq<u8>,
}

impl View for Product {
    type V = ProductModel;

    open spec fn view(&self) -> ProductModel {
        ProductModel { name: self.name@, price: self.price, owner: self.owner@ }
    }
}

impl Clone for Product {
    fn clone(&self) -> (r: Self)
        ensures
            r@ == self@,
    {
        Product {
            name: clone_bytes(&self.name),
            price: self.price,
            owner: self.owner.clone(),
        }
    }
}

/// The models of a sequence of products, in the same order.
pub open spec fn models_of(s: Seq<Product>) -> Seq<ProductModel> {
    Seq::new(s.len(), |i: int| s[i]@)
}

/// An exact copy of a byte vector.
fn clone_bytes(v: &Vec<u8>) -> (r: Vec<u8>)
    ensures
        r@ == v@,
{
    let r = v.clone();
    proof {
        assert forall|i: int| 0 <= i < r@.len() implies r@[i] == v@[i] by {
            assert(cloned::<u8>(v@[i], r@[i]));
        }
        assert(r@ =~= v@);
    }
    r
}

} // verus!
