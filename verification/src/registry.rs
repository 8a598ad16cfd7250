//! The registry: holds every product, assigns fresh ids monotonically, and
//! answers point and full-scan queries.

use vstd::prelude::*;

use crate::product::{AccountId, Product, ProductModel, models_of};

verus! {

/// The errors an operation of the registry can report.
#[derive(Debug, Clone, Copy, PartialEq, Eq)]
pub enum RegistryError {
    /// A create was attempted after the 64-bit id space was exhausted; the
    /// call changes nothing and reports this instead of wrapping the counter.
    CounterOverflow,
}

/// The model of what `get_product` returns.
pub open spec fn option_model(r: Option<Product>) -> Option<ProductModel> {
    match r {
        Some(p) => Some(p@),
        None => None,
    }
}

/// One successful create, as `create_product` guarantees it: the assigned id
/// is the pre-state's next id, and the new record — name and price as
/// supplied, owner stamped from the caller identity — is appended after all
/// existing records, which are left untouched.
pub open spec fn create_step(
    pre: FarmChain,
    post: FarmChain,
    name: Seq<u8>,
    price: u64,
    owner: Seq<u8>,
    id: u64,
) -> bool {
    &&& id == pre.spec_next_id()
    &&& post@ == pre@.push(ProductModel { name, price, owner })
}

/// The product registry. Ids are assigned consecutively from 1 and never
/// reused, so the record with id `n` lives at index `n - 1` of the backing
/// vector; the next id to assign is always the number of records plus one.
pub struct FarmChain {
    products: Vec<Product>,
    product_id_counter: u64,
}

impl View for FarmChain {
    type V = Seq<ProductModel>;

    /// A registry is modelled by its records in ascending id order: the
    /// record with id `n` is element `n - 1`.
    closed spec fn view(&self) -> Seq<ProductModel> {
        models_of(self.products@)
    }
}

impl FarmChain {
    /// The stored counter mirrors the number of records.
    pub closed spec fn wf(self) -> bool {
        self.product_id_counter == self.products@.len() + 1
    }

    /// The id the next successful create will assign.
    pub open spec fn spec_next_id(self) -> int {
        self@.len() as int + 1
    }

    /// A fresh registry: no records, ids start at 1.
    pub fn new() -> (r: FarmChain)
        ensures
            r.wf(),
            r@ == Seq::<ProductModel>::empty(),
            r.spec_next_id() == 1,
    {
        let r = FarmChain { products: Vec::new(), product_id_counter: 1 };
        proof {
            assert(r@ =~= Seq::<ProductModel>::empty());
        }
        r
    }

    /// The model of the record stored under `id`: absent exactly on the ids
    /// no create has assigned yet.
    pub open spec fn spec_get(self, id: u64) -> Option<ProductModel> {
        if 1 <= id && id <= self@.len() {
            Some(self@[id - 1])
        } else {
            None
        }
    }

    /// Register a product: assign the next id, stamp the record with the
    /// caller identity the hosting layer reports for this call, and store it.
    /// Returns the assigned id. Fails only when the id space is exhausted,
    /// and then changes nothing.
    pub fn create_product(&mut self, name: Vec<u8>, price: u64, caller: AccountId) -> (r: Result<
        u64,
        RegistryError,
    >)
        requires
            old(self).wf(),
        ensures
            final(self).wf(),
            old(self).spec_next_id() < u64::MAX ==> (r is Ok && create_step(
                *old(self),
                *final(self),
                name@,
                price,
                caller@,
                r->Ok_0,
            )),
            old(self).spec_next_id() == u64::MAX ==> (r is Err && r->Err_0
                == RegistryError::CounterOverflow && *final(self) == *old(self)),
    {
        let product_id = self.product_id_counter;
        if product_id == u64::MAX {
            return Err(RegistryError::CounterOverflow);
        }
        self.product_id_counter = product_id + 1;
        let product = Product { name, price, owner: caller };
        self.products.push(product);
        proof {
            assert(self@ =~= old(self)@.push(ProductModel {
                name: name@,
                price,
                owner: caller@,
            }));
        }
        Ok(product_id)
    }

    /// Look `product_id` up: a copy of the stored record, or `None` exactly
    /// when no create has assigned that id. Read-only.
    pub fn get_product(&self, product_id: u64) -> (r: Option<Product>)
        ensures
            option_model(r) == self.spec_get(product_id),
            r is Some <==> 1 <= product_id && product_id <= self@.len(),
    {
        if 1 <= product_id && product_id <= self.products.len() as u64 {
            let idx: usize = (product_id - 1) as usize;
            Some(self.products[idx].clone())
        } else {
            None
        }
    }

    /// Every stored record, copied, in ascending id order: the record with
    /// id `n` is element `n - 1` of the result. Read-only.
    pub fn list_products(&self) -> (r: Vec<Product>)
        ensures
            models_of(r@) == self@,
    {
        let mut r: Vec<Product> = Vec::new();
        let mut i: usize = 0;
        while i < self.products.len()
            invariant
                i <= self.products.len(),
                r@.len() == i,
                forall|j: int| 0 <= j < i ==> r@[j]@ == self.products@[j]@,
            decreases self.products.len() - i,
        {
            r.push(self.products[i].clone());
            i = i + 1;
        }
        proof {
            assert(models_of(r@) =~= self@);
        }
        r
    }
}

/// The inputs of one create call: the supplied name and price, and the
/// caller identity the hosting layer reports for that call.
pub ghost struct CreateRequest {
    pub name: Seq<u8>,
    pub price: u64,
    pub owner: Seq<u8>,
}

/// The record a create call with these inputs stores.
pub open spec fn model_of(req: CreateRequest) -> ProductModel {
    ProductModel { name: req.name, price: req.price, owner: req.owner }
}

/// A sequence of successful create calls: `states` are the registry states
/// seen along the way, and the call on `states[i]` took the inputs `reqs[i]`
/// and was assigned `ids[i]` — each step exactly as `create_product`
/// guarantees it.
pub open spec fn creates_chain(
    states: Seq<FarmChain>,
    reqs: Seq<CreateRequest>,
    ids: Seq<u64>,
) -> bool {
    &&& states.len() == reqs.len() + 1
    &&& ids.len() == reqs.len()
    &&& forall|i: int|
        0 <= i < reqs.len() ==> create_step(
            states[i],
            states[i + 1],
            reqs[i].name,
            reqs[i].price,
            reqs[i].owner,
            ids[i],
        )
}

/// Along a chain of creates from a registry with no records, the state after
/// `k` calls holds exactly the `k` records those calls stored, in order.
proof fn lemma_chain_state(states: Seq<FarmChain>, reqs: Seq<CreateRequest>, ids: Seq<u64>, k: int)
    requires
        creates_chain(states, reqs, ids),
        states[0]@.len() == 0,
        0 <= k < states.len(),
    ensures
        states[k]@ == Seq::new(k as nat, |i: int| model_of(reqs[i])),
    decreases k,
{
    if k == 0 {
        assert(states[0]@ =~= Seq::new(0, |i: int| model_of(reqs[i])));
    } else {
        lemma_chain_state(states, reqs, ids, k - 1);
        assert(create_step(
            states[k - 1],
            states[k],
            reqs[k - 1].name,
            reqs[k - 1].price,
            reqs[k - 1].owner,
            ids[k - 1],
        ));
        assert(states[k]@ =~= Seq::new(k as nat, |i: int| model_of(reqs[i])));
    }
}

/// For every sequence of successful creates starting from a registry with no
/// records — as `new` returns it:
/// the i-th call is assigned id `i + 1`, so the assigned ids are strictly
/// increasing and start at 1; from the moment an id is assigned, looking it
/// up yields exactly the record built from that call's inputs, however many
/// creates follow; and after `N` calls the registry — hence the listing
/// `list_products` returns — holds exactly `N` records, the i-th built from
/// the i-th call's inputs, with no duplicates and no omissions.
pub proof fn lemma_creates_from_fresh(
    states: Seq<FarmChain>,
    reqs: Seq<CreateRequest>,
    ids: Seq<u64>,
)
    requires
        creates_chain(states, reqs, ids),
        states[0]@.len() == 0,
    ensures
        forall|i: int| 0 <= i < ids.len() ==> ids[i] == i + 1,
        forall|i: int, j: int| 0 <= i < j < ids.len() ==> ids[i] < ids[j],
        forall|k: int|
            0 <= k < states.len() ==> states[k]@ == Seq::new(k as nat, |i: int| model_of(reqs[i])),
        forall|i: int, k: int|
            0 <= i < ids.len() && i < k < states.len() ==> states[k].spec_get(ids[i]) == Some(
                model_of(reqs[i]),
            ),
{
    assert forall|k: int|
        0 <= k < states.len() implies states[k]@ == Seq::new(
        k as nat,
        |i: int| model_of(reqs[i]),
    ) by {
        lemma_chain_state(states, reqs, ids, k);
    }
    assert forall|i: int| 0 <= i < ids.len() implies ids[i] == i + 1 by {
        assert(create_step(
            states[i],
            states[i + 1],
            reqs[i].name,
            reqs[i].price,
            reqs[i].owner,
            ids[i],
        ));
    }
    assert forall|i: int, k: int|
        0 <= i < ids.len() && i < k < states.len() implies states[k].spec_get(ids[i]) == Some(
        model_of(reqs[i]),
    ) by {
        assert(states[k]@ == Seq::new(k as nat, |j: int| model_of(reqs[j])));
        assert(states[k]@[i] == model_of(reqs[i]));
    }
}

/// A create stores exactly what was supplied: looking the assigned id up in
/// the post-state yields a record whose name, price and owner are the values
/// supplied and stamped at creation time.
pub proof fn lemma_create_then_get(
    pre: FarmChain,
    post: FarmChain,
    name: Seq<u8>,
    price: u64,
    owner: Seq<u8>,
    id: u64,
)
    requires
        create_step(pre, post, name, price, owner, id),
    ensures
        post.spec_get(id) == Some(ProductModel { name, price, owner }),
{
}

/// A create touches no other id: every id but the assigned one is looked up
/// in the post-state exactly as in the pre-state. So what `spec_get` returns
/// for an id, once assigned, never changes however many creates follow.
pub proof fn lemma_create_preserves_other_ids(
    pre: FarmChain,
    post: FarmChain,
    name: Seq<u8>,
    price: u64,
    owner: Seq<u8>,
    id: u64,
)
    requires
        create_step(pre, post, name, price, owner, id),
    ensures
        forall|other: u64| other != id ==> post.spec_get(other) == pre.spec_get(other),
{
}

/// Reads are idempotent: any two results that `get_product` can return for
/// the same registry and id model the same value, and any two results that
/// `list_products` can return for the same registry model the same sequence.
pub proof fn lemma_reads_idempotent(
    r: FarmChain,
    id: u64,
    a: Option<Product>,
    b: Option<Product>,
    la: Vec<Product>,
    lb: Vec<Product>,
)
    requires
        option_model(a) == r.spec_get(id),
        option_model(b) == r.spec_get(id),
        models_of(la@) == r@,
        models_of(lb@) == r@,
    ensures
        option_model(a) == option_model(b),
        models_of(la@) == models_of(lb@),
{
}

/// The stamped owner comes from the caller identity alone: creates from the
/// same state with the same identity record the same owner, whatever names
/// and prices were supplied — the identity is stamped by the calling
/// context, never derived from the inputs.
pub proof fn lemma_owner_independent_of_inputs(
    pre: FarmChain,
    posta: FarmChain,
    postb: FarmChain,
    namea: Seq<u8>,
    pricea: u64,
    nameb: Seq<u8>,
    priceb: u64,
    owner: Seq<u8>,
    ida: u64,
    idb: u64,
)
    requires
        create_step(pre, posta, namea, pricea, owner, ida),
        create_step(pre, postb, nameb, priceb, owner, idb),
    ensures
        posta.spec_get(ida)->Some_0.owner == owner,
        postb.spec_get(idb)->Some_0.owner == owner,
        posta.spec_get(ida)->Some_0.owner == postb.spec_get(idb)->Some_0.owner,
{
}

} // verus!
