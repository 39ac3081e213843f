//! Short scene names and their extraction from scene asset paths.
//!
//! The target reports its current scene as an asset path such as
//! `Assets/Scenes/title.unity`. The splitter only ever looks at the bare
//! scene name: the part of the path after the last `/`, truncated at the
//! first `.`. Names longer than the fixed capacity are treated as unreadable.

use vstd::prelude::*;

verus! {

broadcast use vstd::array::group_array_axioms;

/// `p` is a prefix of `s`.
pub open spec fn spec_starts_with(s: Seq<u8>, p: Seq<u8>) -> bool {
    p.len() <= s.len() && s.subrange(0, p.len() as int) == p
}

/// `p` is a prefix of `s`.
pub fn bytes_starts_with(s: &[u8], p: &[u8]) -> (r: bool)
    ensures
        r == spec_starts_with(s@, p@),
{
    if p.len() > s.len() {
        return false;
    }
    let mut i: usize = 0;
    while i < p.len()
        invariant
            i <= p@.len() <= s@.len(),
            forall|j: int| 0 <= j < i ==> s@[j] == p@[j],
        decreases p@.len() - i,
    {
        if s[i] != p[i] {
            proof {
                assert(s@.subrange(0, p@.len() as int)[i as int] == s@[i as int]);
            }
            return false;
        }
        i += 1;
    }
    proof {
        assert(s@.subrange(0, p@.len() as int) =~= p@);
    }
    true
}

/// The two byte strings are equal.
pub fn bytes_eq(a: &[u8], b: &[u8]) -> (r: bool)
    ensures
        r == (a@ == b@),
{
    if a.len() != b.len() {
        proof {
            assert(a@.len() != b@.len());
        }
        return false;
    }
    let mut i: usize = 0;
    while i < a.len()
        invariant
            i <= a@.len(),
            a@.len() == b@.len(),
            forall|j: int| 0 <= j < i ==> a@[j] == b@[j],
        decreases a@.len() - i,
    {
        if a[i] != b[i] {
            return false;
        }
        i += 1;
    }
    proof {
        assert(a@ =~= b@);
    }
    true
}

/// A scene name as a short inline byte string of at most 16 bytes, so that
/// scene watchers can copy samples freely.
#[derive(Clone, Copy)]
pub struct SceneName {
    bytes: [u8; 16],
    len: usize,
}

impl SceneName {
    /// The bytes of the name.
    pub closed spec fn view(&self) -> Seq<u8> {
        self.bytes@.take(self.len as int)
    }

    /// The stored length never exceeds the inline capacity.
    pub closed spec fn wf(&self) -> bool {
        self.len <= 16
    }

    pub proof fn lemma_view_len(&self)
        requires
            self.wf(),
        ensures
            self@.len() <= 16,
    {
    }

    /// Copy `s` into a scene name; `None` when `s` does not fit.
    pub fn new(s: &[u8]) -> (r: Option<SceneName>)
        ensures
            match r {
                Option::Some(n) => s@.len() <= 16 && n.wf() && n@ == s@,
                Option::None => s@.len() > 16,
            },
    {
        if s.len() > 16 {
            return Option::None;
        }
        let mut bytes = [0u8; 16];
        let mut i: usize = 0;
        while i < s.len()
            invariant
                i <= s@.len() <= 16,
                forall|j: int| 0 <= j < i ==> bytes@[j] == s@[j],
            decreases s@.len() - i,
        {
            bytes[i] = s[i];
            i += 1;
        }
        let n = SceneName { bytes, len: s.len() };
        proof {
            assert(n@ =~= s@);
        }
        Option::Some(n)
    }

    /// The name's bytes as a slice.
    pub fn as_bytes(&self) -> (r: &[u8])
        requires
            self.wf(),
        ensures
            r@ == self@,
    {
        let s = self.bytes.as_slice();
        let r = &s[0..self.len];
        proof {
            assert(r@ =~= self@);
        }
        r
    }

    /// The name's bytes equal `s`.
    pub fn eq_bytes(&self, s: &[u8]) -> (r: bool)
        requires
            self.wf(),
        ensures
            r == (self@ == s@),
    {
        proof {
            self.lemma_view_len();
        }
        if self.len != s.len() {
            proof {
                assert(self@.len() != s@.len());
            }
            return false;
        }
        let mut i: usize = 0;
        while i < self.len
            invariant
                self.wf(),
                i <= self.len,
                self.len == s@.len(),
                self.len <= 16,
                forall|j: int| 0 <= j < i ==> self@[j] == s@[j],
            decreases self.len - i,
        {
            if self.bytes[i] != s[i] {
                proof {
                    assert(self@[i as int] != s@[i as int]);
                }
                return false;
            }
            i += 1;
        }
        proof {
            assert(self@ =~= s@);
        }
        true
    }

    /// `p` is a prefix of the name's bytes.
    pub fn starts_with(&self, p: &[u8]) -> (r: bool)
        requires
            self.wf(),
        ensures
            r == spec_starts_with(self@, p@),
    {
        proof {
            self.lemma_view_len();
        }
        if p.len() > self.len {
            return false;
        }
        let mut i: usize = 0;
        while i < p.len()
            invariant
                self.wf(),
                i <= p@.len() <= self.len <= 16,
                forall|j: int| 0 <= j < i ==> self@[j] == p@[j],
            decreases p@.len() - i,
        {
            if self.bytes[i] != p[i] {
                proof {
                    assert(self@[i as int] != p@[i as int]);
                    assert(self@.subrange(0, p@.len() as int)[i as int] == self@[i as int]);
                }
                return false;
            }
            i += 1;
        }
        proof {
            assert(self@.subrange(0, p@.len() as int) =~= p@);
        }
        true
    }

    /// Extract the scene name from a scene asset path; `None` when the name
    /// does not fit a `SceneName`.
    pub fn from_path(path: &[u8]) -> (r: Option<SceneName>)
        ensures
            match r {
                Option::Some(n) => spec_scene_name_of_path(path@).len() <= 16 && n.wf() && n@
                    == spec_scene_name_of_path(path@),
                Option::None => spec_scene_name_of_path(path@).len() > 16,
            },
    {
        let name = scene_name_of_path(path);
        SceneName::new(name.as_slice())
    }
}

/// Both samples of a scene watcher, when present, are well-formed names.
pub open spec fn scene_pair_wf(w: crate::watcher::Watcher<SceneName>) -> bool {
    match w.pair {
        Option::Some(p) => p.old.wf() && p.current.wf(),
        Option::None => true,
    }
}

/// The scene name changed between the two most recent readings.
pub open spec fn spec_scene_changed(w: crate::watcher::Watcher<SceneName>) -> bool {
    match w.pair {
        Option::Some(p) => p.current@ != p.old@,
        Option::None => false,
    }
}

/// The scene name changed and the newest reading is `v`.
pub open spec fn spec_scene_changed_to(w: crate::watcher::Watcher<SceneName>, v: Seq<u8>) -> bool {
    match w.pair {
        Option::Some(p) => p.current@ == v && p.old@ != v,
        Option::None => false,
    }
}

impl crate::watcher::Watcher<SceneName> {
    /// The scene name changed between the two most recent readings. Names
    /// are compared by their bytes.
    pub fn changed(&self) -> (r: bool)
        requires
            scene_pair_wf(*self),
        ensures
            r == spec_scene_changed(*self),
    {
        match &self.pair {
            Option::Some(p) => !p.current.eq_bytes(p.old.as_bytes()),
            Option::None => false,
        }
    }

    /// The scene name changed and the newest reading equals `v`.
    pub fn changed_to(&self, v: &[u8]) -> (r: bool)
        requires
            scene_pair_wf(*self),
        ensures
            r == spec_scene_changed_to(*self, v@),
    {
        match &self.pair {
            Option::Some(p) => p.current.eq_bytes(v) && !p.old.eq_bytes(v),
            Option::None => false,
        }
    }
}

/// The part of `p` after its last `/`: the whole of `p` when it has none,
/// empty when it ends in one.
pub open spec fn spec_basename(p: Seq<u8>) -> Seq<u8>
    decreases p.len(),
{
    if p.len() == 0 {
        p
    } else if p.last() == 47u8 {
        Seq::<u8>::empty()
    } else {
        spec_basename(p.drop_last()).push(p.last())
    }
}

/// The part of `s` before its first `.`: the whole of `s` when it has none.
pub open spec fn spec_stem(s: Seq<u8>) -> Seq<u8>
    decreases s.len(),
{
    if s.len() == 0 {
        s
    } else if s[0] == 46u8 {
        Seq::<u8>::empty()
    } else {
        seq![s[0]] + spec_stem(s.subrange(1, s.len() as int))
    }
}

/// The scene name carried by a scene asset path: the part after the last
/// `/`, truncated at the first `.` after that.
pub open spec fn spec_scene_name_of_path(p: Seq<u8>) -> Seq<u8> {
    spec_stem(spec_basename(p))
}

proof fn lemma_basename_suffix(p: Seq<u8>, k: int)
    requires
        0 <= k <= p.len(),
        forall|i: int| k <= i < p.len() ==> p[i] != 47u8,
        k == 0 || p[k - 1] == 47u8,
    ensures
        spec_basename(p) == p.subrange(k, p.len() as int),
    decreases p.len(),
{
    if p.len() == k {
        if k == 0 {
            assert(spec_basename(p) =~= p.subrange(k, p.len() as int));
        } else {
            assert(p.last() == 47u8);
            assert(spec_basename(p) =~= p.subrange(k, p.len() as int));
        }
    } else {
        assert(p.last() != 47u8);
        let q = p.drop_last();
        lemma_basename_suffix(q, k);
        assert(q.subrange(k, q.len() as int).push(p.last()) =~= p.subrange(k, p.len() as int));
    }
}

proof fn lemma_stem_prefix(s: Seq<u8>, m: int)
    requires
        0 <= m <= s.len(),
        forall|i: int| 0 <= i < m ==> s[i] != 46u8,
        m == s.len() || s[m] == 46u8,
    ensures
        spec_stem(s) == s.subrange(0, m),
    decreases s.len(),
{
    if s.len() == 0 {
        assert(spec_stem(s) =~= s.subrange(0, m));
    } else if m == 0 {
        if s[0] == 46u8 {
            assert(spec_stem(s) =~= s.subrange(0, 0));
        } else {
            assert(m == s.len() || s[m] == 46u8);
            assert(spec_stem(s) =~= s.subrange(0, m));
        }
    } else {
        assert(s[0] != 46u8);
        let t = s.subrange(1, s.len() as int);
        lemma_stem_prefix(t, m - 1);
        assert(seq![s[0]] + t.subrange(0, m - 1) =~= s.subrange(0, m));
    }
}

/// Extract the scene name from a scene asset path: the bytes after the last
/// `/`, truncated at the first `.` after that.
pub fn scene_name_of_path(path: &[u8]) -> (r: Vec<u8>)
    ensures
        r@ == spec_scene_name_of_path(path@),
{
    let len = path.len();
    let mut start: usize = 0;
    let mut i: usize = 0;
    while i < len
        invariant
            len == path@.len(),
            start <= i <= len,
            start == 0 || path@[start - 1] == 47u8,
            forall|j: int| start <= j < i ==> path@[j] != 47u8,
        decreases len - i,
    {
        if path[i] == 47u8 {
            start = i + 1;
        }
        i += 1;
    }
    let mut end: usize = start;
    while end < len && path[end] != 46u8
        invariant
            len == path@.len(),
            start <= end <= len,
            forall|j: int| start <= j < end ==> path@[j] != 46u8,
        decreases len - end,
    {
        end += 1;
    }
    let mut out: Vec<u8> = Vec::new();
    let mut j: usize = start;
    while j < end
        invariant
            len == path@.len(),
            start <= j <= end <= len,
            out@ =~= path@.subrange(start as int, j as int),
        decreases end - j,
    {
        let b = path[j];
        out.push(b);
        proof {
            assert(out@ =~= path@.subrange(start as int, j + 1 as int));
        }
        j += 1;
    }
    proof {
        lemma_basename_suffix(path@, start as int);
        let base = path@.subrange(start as int, len as int);
        lemma_stem_prefix(base, end - start as int);
        assert(base.subrange(0, end - start as int) =~= path@.subrange(
            start as int,
            end as int,
        ));
    }
    out
}

} // verus!
