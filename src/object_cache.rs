use vstd::prelude::*;

use crate::error::LayerDbError;

verus! {

/// What the object store answered to a fetch of one object.
pub enum ObjectFetch {
    /// The object's body.
    Body(Vec<u8>),
    /// The store has no object under the key.
    NoSuchKey,
    /// Any other failure, described.
    Failed(String),
}

/// What a fetch from the object tier means: an absent or empty object is
/// "not found", not an error; every other failure is passed on.
pub fn object_get_outcome(fetch: ObjectFetch) -> (r: Result<Option<Vec<u8>>, LayerDbError>)
    ensures
        match fetch {
            ObjectFetch::Body(b) => if b@.len() == 0 {
                r == Ok::<Option<Vec<u8>>, LayerDbError>(None)
            } else {
                r == Ok::<Option<Vec<u8>>, LayerDbError>(Some(b))
            },
            ObjectFetch::NoSuchKey => r == Ok::<Option<Vec<u8>>, LayerDbError>(None),
            ObjectFetch::Failed(e) => r == Err::<Option<Vec<u8>>, LayerDbError>(LayerDbError::ObjectStore(e)),
        },
{
    match fetch {
        ObjectFetch::Body(b) => {
            if b.len() == 0 {
                Ok(None)
            } else {
                Ok(Some(b))
            }
        },
        ObjectFetch::NoSuchKey => Ok(None),
        ObjectFetch::Failed(e) => Err(LayerDbError::ObjectStore(e)),
    }
}

/// The keys, in order, whose fetch found something, with what it found.
pub open spec fn found_pairs(fetched: Seq<(String, Option<Vec<u8>>)>) -> Seq<(String, Vec<u8>)>
    decreases fetched.len(),
{
    if fetched.len() == 0 {
        Seq::empty()
    } else if fetched.last().1 is Some {
        found_pairs(fetched.drop_last()).push((fetched.last().0, fetched.last().1->Some_0))
    } else {
        found_pairs(fetched.drop_last())
    }
}

/// Gathers the answers of a fetch of many objects: the ones found, in
/// order, or nothing at all when none was found.
pub fn object_get_many_outcome(fetched: Vec<(String, Option<Vec<u8>>)>) -> (r: Option<Vec<(String, Vec<u8>)>>)
    ensures
        found_pairs(fetched@).len() == 0 ==> r is None,
        found_pairs(fetched@).len() > 0 ==> r is Some && r->Some_0@ == found_pairs(fetched@),
{
    let mut results: Vec<(String, Vec<u8>)> = Vec::new();
    let mut rest = fetched;
    let ghost all = rest@;
    let mut tail: Vec<(String, Option<Vec<u8>>)> = Vec::new();
    // Walk from the back so that each item can be moved out.
    while rest.len() > 0
        invariant
            all == rest@ + tail@.reverse(),
            results@ == Seq::<(String, Vec<u8>)>::empty(),
        decreases rest@.len(),
    {
        let ghost r0 = rest@;
        let ghost t0 = tail@;
        let item = rest.pop().unwrap();
        tail.push(item);
        assert(rest@ + tail@.reverse() =~= r0 + t0.reverse()) by {
            assert(tail@.reverse() =~= seq![item] + t0.reverse());
            assert(r0 =~= rest@.push(item));
        }
    }
    let mut i: usize = tail.len();
    let ghost tr = tail@;
    assert(all =~= tr.reverse());
    while i > 0
        invariant
            i <= tr.len(),
            tail@ == tr.take(i as int),
            all == tr.reverse(),
            results@ == found_pairs(all.take((tr.len() - i) as int)),
        decreases i,
    {
        let ghost n = (tr.len() - i) as int;
        let ghost t0 = tail@;
        let item = tail.pop().unwrap();
        proof {
            assert(t0 =~= tail@.push(item));
            assert(tail@ =~= tr.take(i - 1));
            assert(item == tr[i - 1]);
            assert(all[n] == tr[i - 1]);
            assert(all.take(n + 1).drop_last() =~= all.take(n));
        }
        i = i - 1;
        match item {
            (key, Some(bytes)) => {
                results.push((key, bytes));
            },
            (_, None) => {},
        }
    }
    assert(all.take(all.len() as int) =~= all);
    if results.len() == 0 {
        None
    } else {
        Some(results)
    }
}

/// What probing the object store for the bucket, or for one object, answered.
pub enum StoreProbe {
    Exists,
    NotFound,
    Failed(String),
}

/// Whether the store holds an object, from what probing for it answered:
/// absent is `false`, not an error; a failed probe is passed on.
pub fn object_exists_outcome(probe: StoreProbe) -> (r: Result<bool, LayerDbError>)
    ensures
        match probe {
            StoreProbe::Exists => r == Ok::<bool, LayerDbError>(true),
            StoreProbe::NotFound => r == Ok::<bool, LayerDbError>(false),
            StoreProbe::Failed(e) => r == Err::<bool, LayerDbError>(LayerDbError::ObjectStore(e)),
        },
{
    match probe {
        StoreProbe::Exists => Ok(true),
        StoreProbe::NotFound => Ok(false),
        StoreProbe::Failed(e) => Err(LayerDbError::ObjectStore(e)),
    }
}

/// What startup does about the bucket.
#[derive(PartialEq, Eq, Debug)]
pub enum BucketAction {
    /// Nothing: the bucket is there.
    Ready,
    /// Create the bucket: it is missing.
    Create,
}

/// Makes sure the bucket exists, idempotently: a missing bucket is created,
/// one that is there is left alone, and a failed probe fails startup.
pub fn bucket_action(probe: StoreProbe) -> (r: Result<BucketAction, LayerDbError>)
    ensures
        match probe {
            StoreProbe::Exists => r == Ok::<BucketAction, LayerDbError>(BucketAction::Ready),
            StoreProbe::NotFound => r == Ok::<BucketAction, LayerDbError>(BucketAction::Create),
            StoreProbe::Failed(e) => r == Err::<BucketAction, LayerDbError>(LayerDbError::ObjectStore(e)),
        },
{
    match probe {
        StoreProbe::Exists => Ok(BucketAction::Ready),
        StoreProbe::NotFound => Ok(BucketAction::Create),
        StoreProbe::Failed(e) => Err(LayerDbError::ObjectStore(e)),
    }
}

} // verus!
