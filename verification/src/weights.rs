//! Weight Store: named-tensor access over the weight container files of a
//! model directory. The store itself holds plain named entries; opening and
//! memory-mapping the files is the host shell's work, which hands the file
//! names in and receives the selection back.

use vstd::prelude::*;
use vstd::string::StrSliceExecFns;

use crate::errors::IoError;
use crate::str_eq;

verus! {

/// A name ends in the recognized weight-container extension, with a
/// non-empty stem before it.
pub open spec fn is_weight_file(name: Seq<char>) -> bool {
    &&& name.len() > ".safetensors"@.len()
    &&& name.subrange(name.len() - ".safetensors"@.len(), name.len() as int) == ".safetensors"@
}

/// The weight-container files among `names`, in their given order.
pub open spec fn weight_file_selection(names: Seq<Seq<char>>) -> Seq<Seq<char>>
    decreases names.len(),
{
    if names.len() == 0 {
        Seq::empty()
    } else {
        let rest = weight_file_selection(names.drop_last());
        if is_weight_file(names.last()) {
            rest.push(names.last())
        } else {
            rest
        }
    }
}

/// Does this file name carry the recognized weight-container extension?
pub fn has_weight_extension(name: &str) -> (r: bool)
    ensures
        r == is_weight_file(name@),
{
    proof {
        reveal_strlit(".safetensors");
    }
    let n = name.unicode_len();
    if n <= 12 {
        return false;
    }
    let tail = name.substring_char(n - 12, n);
    str_eq(tail, ".safetensors")
}

/// Keep the weight-container files of a directory listing, in order; a
/// listing with none fails fast with `IoError::NotFound`.
pub fn select_weight_files(names: &Vec<String>) -> (r: Result<Vec<String>, IoError>)
    ensures
        match r {
            Ok(v) => {
                &&& v.deep_view() == weight_file_selection(names.deep_view())
                &&& v@.len() > 0
            },
            Err(e) => {
                &&& e == IoError::NotFound
                &&& weight_file_selection(names.deep_view()).len() == 0
            },
        },
{
    let ghost all = names.deep_view();
    let mut out: Vec<String> = Vec::new();
    let mut i: usize = 0;
    while i < names.len()
        invariant
            i <= names.len(),
            all == names.deep_view(),
            out.deep_view() == weight_file_selection(all.subrange(0, i as int)),
        decreases names.len() - i,
    {
        let ghost prefix = all.subrange(0, i as int);
        let ghost next = all.subrange(0, i + 1 as int);
        proof {
            assert(next.drop_last() =~= prefix);
            assert(next.last() == all[i as int]);
        }
        if has_weight_extension(names[i].as_str()) {
            out.push(names[i].clone());
            proof {
                assert(out.deep_view() =~= weight_file_selection(prefix).push(all[i as int]));
            }
        } else {
            proof {
                assert(out.deep_view() =~= weight_file_selection(prefix));
            }
        }
        i = i + 1;
    }
    proof {
        assert(all.subrange(0, all.len() as int) =~= all);
    }
    if out.len() == 0 {
        Err(IoError::NotFound)
    } else {
        Ok(out)
    }
}

/// Read-only named-tensor storage. `T` stands for whatever the tensor
/// runtime hands back for one named weight; a later entry under the same
/// name shadows an earlier one, as `contents` records.
pub struct WeightStore<T> {
    entries: Vec<(String, T)>,
}

/// The map a sequence of named entries denotes, later entries winning.
pub open spec fn entries_map<T>(s: Seq<(String, T)>) -> Map<Seq<char>, T>
    decreases s.len(),
{
    if s.len() == 0 {
        Map::empty()
    } else {
        entries_map(s.drop_last()).insert(s.last().0@, s.last().1)
    }
}

impl<T> WeightStore<T> {
    /// The named tensors this store holds.
    pub closed spec fn contents(self) -> Map<Seq<char>, T> {
        entries_map(self.entries@)
    }

    /// An empty store.
    pub fn new() -> (r: Self)
        ensures
            r.contents() == Map::<Seq<char>, T>::empty(),
    {
        WeightStore { entries: Vec::new() }
    }

    /// Record one named tensor.
    pub fn insert(&mut self, name: String, value: T)
        ensures
            final(self).contents() == old(self).contents().insert(name@, value),
    {
        self.entries.push((name, value));
        proof {
            assert(self.entries@.drop_last() =~= old(self).entries@);
        }
    }

    /// Look a tensor up by name.
    pub fn get(&self, name: &str) -> (r: Option<&T>)
        ensures
            match r {
                Some(t) => {
                    &&& self.contents().contains_key(name@)
                    &&& *t == self.contents()[name@]
                },
                None => !self.contents().contains_key(name@),
            },
    {
        proof {
            assert(self.entries@.subrange(0, self.entries@.len() as int) =~= self.entries@);
        }
        let mut j: usize = self.entries.len();
        while j > 0
            invariant
                j <= self.entries@.len(),
                entries_map(self.entries@).contains_key(name@) == entries_map(
                    self.entries@.subrange(0, j as int),
                ).contains_key(name@),
                entries_map(self.entries@).contains_key(name@) ==> entries_map(
                    self.entries@,
                )[name@] == entries_map(self.entries@.subrange(0, j as int))[name@],
            decreases j,
        {
            j = j - 1;
            let ghost upto = self.entries@.subrange(0, j + 1 as int);
            proof {
                assert(upto.drop_last() =~= self.entries@.subrange(0, j as int));
                assert(upto.last() == self.entries@[j as int]);
            }
            if str_eq(self.entries[j].0.as_str(), name) {
                return Some(&self.entries[j].1);
            }
        }
        proof {
            assert(self.entries@.subrange(0, 0) =~= Seq::<(String, T)>::empty());
        }
        None
    }

    /// How many entries are recorded.
    pub fn entry_count(&self) -> (n: usize)
        ensures
            n == self.entries_len(),
    {
        self.entries.len()
    }

    /// The number of recorded entries (shadowed ones included).
    pub closed spec fn entries_len(self) -> nat {
        self.entries@.len()
    }
}

} // verus!
