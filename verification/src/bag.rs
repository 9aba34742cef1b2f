//! A bag of pictures walked with a cursor, one step at a time, without
//! any loading in the background.

use crate::store::ConstructionError;
use crate::picture::ImagePair;
use image::DynamicImage;
use vstd::prelude::*;

verus! {

/// The index of the first failure among `outcomes` from `from` on, and
/// their number when there is none.
pub open spec fn first_failure(outcomes: Seq<Result<DynamicImage, String>>, from: int) -> int
    decreases outcomes.len() - from,
{
    if from >= outcomes.len() {
        outcomes.len() as int
    } else if outcomes[from] is Err {
        from
    } else {
        first_failure(outcomes, from + 1)
    }
}

/// The pairs after the first `count` of `outcomes`, all of them pictures,
/// have gone to their pairs.
pub open spec fn preloaded(
    pairs: Seq<ImagePair>,
    outcomes: Seq<Result<DynamicImage, String>>,
    count: int,
) -> Seq<ImagePair> {
    Seq::new(
        pairs.len(),
        |i: int|
            if 0 <= i < count {
                ImagePair(pairs[i].0, Some(outcomes[i]->Ok_0))
            } else {
                pairs[i]
            },
    )
}

/// The file that stopped a preload, and why it could not be read.
#[derive(Debug, PartialEq, Eq)]
pub struct PreloadFailure {
    /// Index of the file, in the order of the paths.
    pub index: usize,
    /// The reason, as the decode gave it.
    pub reason: String,
}

/// The pairs of a session, in the order of its paths, and the index of
/// the pair that was handed out last.
pub struct ImagesBag {
    data: Vec<ImagePair>,
    current: usize,
}

impl ImagesBag {
    /// The pairs, in the order of the paths.
    pub closed spec fn pairs(&self) -> Seq<ImagePair> {
        self.data@
    }

    /// The index of the pair that was handed out last.
    pub closed spec fn cursor(&self) -> int {
        self.current as int
    }

    /// The cursor is on a pair of the bag, which is never empty.
    pub open spec fn wf(&self) -> bool {
        0 <= self.cursor() < self.pairs().len()
    }

    /// A bag with one pair per path, none of them decoded, and the cursor
    /// on the first. An empty list of paths is refused.
    pub fn new(paths: Vec<String>) -> (made: Result<ImagesBag, ConstructionError>)
        ensures
            made is Err <==> paths@.len() == 0,
            made matches Err(e) ==> e == ConstructionError::EmptyPathList,
            made matches Ok(bag) ==> {
                &&& bag.wf()
                &&& bag.cursor() == 0
                &&& bag.pairs().len() == paths@.len()
                &&& forall|i: int|
                    0 <= i < paths@.len() ==> bag.pairs()[i] == ImagePair(paths@[i], None)
            },
    {
        if paths.len() == 0 {
            return Err(ConstructionError::EmptyPathList);
        }
        let mut data: Vec<ImagePair> = Vec::new();
        let mut i: usize = 0;
        while i < paths.len()
            invariant
                i <= paths@.len(),
                data@.len() == i,
                forall|j: int| 0 <= j < i ==> data@[j] == ImagePair(paths@[j], None),
            decreases paths@.len() - i,
        {
            data.push(ImagePair(paths[i].clone(), None));
            i = i + 1;
        }
        Ok(ImagesBag { data, current: 0 })
    }

    /// Number of pairs.
    pub fn len(&self) -> (n: usize)
        ensures
            n == self.pairs().len(),
    {
        self.data.len()
    }

    /// How many pairs a preload of `n` decodes: the first `n`, or all of
    /// them when there are fewer.
    pub fn preload_count(&self, n: usize) -> (count: usize)
        ensures
            count == if n <= self.pairs().len() {
                n as int
            } else {
                self.pairs().len() as int
            },
    {
        if n <= self.data.len() {
            n
        } else {
            self.data.len()
        }
    }

    /// Takes in the outcomes of decoding the first files, in the order of
    /// the paths: each picture goes to its pair, up to the first failure,
    /// which is returned with its index. Pairs from the failure on stay as
    /// they are, whatever the outcomes after it hold.
    pub fn preload(&mut self, decoded: Vec<Result<DynamicImage, String>>) -> (done: Result<
        (),
        PreloadFailure,
    >)
        requires
            decoded@.len() <= old(self).pairs().len(),
        ensures
            final(self).cursor() == old(self).cursor(),
            final(self).pairs() == preloaded(
                old(self).pairs(),
                decoded@,
                first_failure(decoded@, 0),
            ),
            first_failure(decoded@, 0) == decoded@.len() ==> done is Ok,
            first_failure(decoded@, 0) < decoded@.len() ==> done == Err::<(), PreloadFailure>(
                PreloadFailure {
                    index: first_failure(decoded@, 0) as usize,
                    reason: decoded@[first_failure(decoded@, 0)]->Err_0,
                },
            ),
    {
        let ghost outcomes = decoded@;
        let ghost before = self.data@;
        let mut i: usize = 0;
        assert(self.data@ =~= preloaded(before, outcomes, 0));
        for outcome in it: decoded.into_iter()
            invariant
                it.seq() == outcomes,
                i == it.index(),
                outcomes == decoded@,
                before == old(self).data@,
                outcomes.len() <= before.len(),
                self.data@.len() == before.len(),
                self.current == old(self).current,
                first_failure(outcomes, 0) == first_failure(outcomes, i as int),
                self.data@ == preloaded(before, outcomes, i as int),
        {
            let len: usize = self.data.len();
            assert(i < outcomes.len() <= len);
            assert(outcome == outcomes[i as int]);
            match outcome {
                Ok(picture) => {
                    let path = self.data[i].0.clone();
                    self.data[i] = ImagePair(path, Some(picture));
                    assert(self.data@ =~= preloaded(before, outcomes, i + 1));
                },
                Err(reason) => {
                    return Err(PreloadFailure { index: i, reason });
                },
            }
            i = i + 1;
        }
        Ok(())
    }

    /// Moves the cursor to `idx` and hands out the pair there; an index
    /// outside the bag moves nothing and hands out nothing.
    pub fn get(&mut self, idx: usize) -> (pair: Option<&ImagePair>)
        ensures
            final(self).pairs() == old(self).pairs(),
            idx < old(self).pairs().len() ==> final(self).cursor() == idx && pair == Some(
                &old(self).pairs()[idx as int],
            ),
            idx >= old(self).pairs().len() ==> final(self).cursor() == old(self).cursor()
                && pair.is_none(),
    {
        if idx < self.data.len() {
            self.current = idx;
            Some(&self.data[idx])
        } else {
            None
        }
    }

    /// Moves to the pair after the cursor, if there is one.
    pub fn next(&mut self) -> (pair: Option<&ImagePair>)
        requires
            old(self).wf(),
        ensures
            final(self).pairs() == old(self).pairs(),
            final(self).wf(),
            old(self).cursor() + 1 < old(self).pairs().len() ==> final(self).cursor() == old(
                self,
            ).cursor() + 1 && pair == Some(&old(self).pairs()[old(self).cursor() + 1]),
            old(self).cursor() + 1 >= old(self).pairs().len() ==> final(self).cursor() == old(
                self,
            ).cursor() && pair.is_none(),
    {
        let len: usize = self.data.len();
        assert(self.current < len);
        let idx: usize = self.current + 1;
        self.get(idx)
    }

    /// Moves to the pair before the cursor, if there is one.
    pub fn prev(&mut self) -> (pair: Option<&ImagePair>)
        requires
            old(self).wf(),
        ensures
            final(self).pairs() == old(self).pairs(),
            final(self).wf(),
            old(self).cursor() > 0 ==> final(self).cursor() == old(self).cursor() - 1 && pair
                == Some(&old(self).pairs()[old(self).cursor() - 1]),
            old(self).cursor() == 0 ==> final(self).cursor() == 0 && pair.is_none(),
    {
        if self.current == 0 {
            return None;
        }
        let idx: usize = self.current - 1;
        self.get(idx)
    }
}

} // verus!
