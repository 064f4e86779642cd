//! The per-channel sample history.
use vstd::prelude::*;

verus! {

/// Append-only history of every channel, one sequence of samples each.
pub struct SampleStore<T> {
    pub channels: Vec<Vec<T>>,
}

/// The samples of each channel of a list of per-channel vectors.
pub open spec fn seqs_of<T>(v: Seq<Vec<T>>) -> Seq<Seq<T>> {
    v.map_values(|c: Vec<T>| c@)
}

impl<T> SampleStore<T> {
    /// The history of each channel.
    pub open spec fn contents(&self) -> Seq<Seq<T>> {
        seqs_of(self.channels@)
    }

    /// An empty history for `count` channels.
    pub fn new(count: usize) -> (r: SampleStore<T>)
        ensures
            r.contents().len() == count,
            forall|i: int| 0 <= i < count ==> r.contents()[i].len() == 0,
    {
        let mut channels: Vec<Vec<T>> = Vec::with_capacity(count);
        let mut i: usize = 0;
        while i < count
            invariant
                i <= count,
                channels@.len() == i,
                forall|k: int| 0 <= k < i ==> channels@[k]@.len() == 0,
            decreases count - i,
        {
            channels.push(Vec::new());
            i = i + 1;
        }
        SampleStore { channels }
    }

    pub fn channel_count(&self) -> (r: usize)
        ensures
            r == self.contents().len(),
    {
        self.channels.len()
    }

    /// Appends one chunk to every channel, in channel order.
    pub fn append(&mut self, chunks: Vec<Vec<T>>)
        requires
            chunks@.len() == old(self).contents().len(),
        ensures
            final(self).contents().len() == old(self).contents().len(),
            forall|i: int|
                0 <= i < old(self).contents().len() ==> final(self).contents()[i] == old(self).contents()[i]
                    + chunks@[i]@,
    {
        let ghost before = self.contents();
        let ghost added = seqs_of(chunks@);
        let n = self.channels.len();
        let mut rest = chunks;
        let mut old_channels: Vec<Vec<T>> = Vec::new();
        std::mem::swap(&mut old_channels, &mut self.channels);
        let mut i: usize = 0;
        while i < n
            invariant
                i <= n,
                n == before.len(),
                added.len() == n,
                self.channels@.len() == i,
                old_channels@.len() == n - i,
                rest@.len() == n - i,
                forall|k: int| 0 <= k < i ==> self.channels@[k]@ == before[k] + added[k],
                forall|k: int| 0 <= k < n - i ==> old_channels@[k]@ == before[k + i],
                forall|k: int| 0 <= k < n - i ==> rest@[k]@ == added[k + i],
            decreases n - i,
        {
            let mut channel = old_channels.remove(0);
            let mut chunk = rest.remove(0);
            channel.append(&mut chunk);
            self.channels.push(channel);
            i = i + 1;
        }
        assert(self.contents().len() == n);
    }
}

} // verus!
