use vstd::prelude::*;

verus! {

/// Number of bytes before the first nul of `b`, or all of `b` when it holds none.
pub open spec fn c_str_len(b: Seq<u8>) -> nat
    decreases b.len(),
{
    if b.len() == 0 {
        0
    } else if b[0] == 0 {
        0
    } else {
        1 + c_str_len(b.drop_first())
    }
}

/// `b` holds a nul somewhere, so that a scan for the terminator stops inside it.
pub open spec fn has_nul(b: Seq<u8>) -> bool {
    exists|i: int| 0 <= i < b.len() && b[i] == 0
}

/// A nul-terminated string as native code sees it: exactly one nul, at the end.
pub open spec fn is_c_string(b: Seq<u8>) -> bool {
    &&& b.len() > 0
    &&& b.last() == 0
    &&& forall|i: int| 0 <= i < b.len() - 1 ==> b[i] != 0
}

pub proof fn lemma_c_str_len(b: Seq<u8>)
    ensures
        c_str_len(b) <= b.len(),
        forall|j: int| 0 <= j < c_str_len(b) ==> b[j] != 0,
        c_str_len(b) < b.len() ==> b[c_str_len(b) as int] == 0,
        has_nul(b) <==> c_str_len(b) < b.len(),
    decreases b.len(),
{
    if b.len() > 0 && b[0] != 0 {
        lemma_c_str_len(b.drop_first());
        assert forall|j: int| 0 <= j < c_str_len(b) implies b[j] != 0 by {
            if j > 0 {
                assert(b[j] == b.drop_first()[j - 1]);
            }
        }
        if has_nul(b) {
            let i = choose|i: int| 0 <= i < b.len() && b[i] == 0;
            assert(b.drop_first()[i - 1] == 0);
        }
        if has_nul(b.drop_first()) {
            let i = choose|i: int| 0 <= i < b.drop_first().len() && b.drop_first()[i] == 0;
            assert(b[i + 1] == 0);
        }
    } else if b.len() > 0 {
        assert(b[0] == 0);
    }
}

/// The first `n` with `b[..n]` free of nul and `b[n]` nul (or `n` the length) is the
/// scanned length.
pub proof fn lemma_c_str_len_unique(b: Seq<u8>, n: int)
    requires
        0 <= n <= b.len(),
        forall|j: int| 0 <= j < n ==> b[j] != 0,
        n < b.len() ==> b[n] == 0,
    ensures
        c_str_len(b) == n,
{
    lemma_c_str_len(b);
}

pub proof fn lemma_c_string_len(b: Seq<u8>)
    requires
        is_c_string(b),
    ensures
        c_str_len(b) == b.len() - 1,
        has_nul(b),
{
    lemma_c_str_len_unique(b, b.len() - 1);
    lemma_c_str_len(b);
}

/// Scans `b` for its terminator.
pub fn c_str_len_of(b: &[u8]) -> (n: usize)
    ensures
        n == c_str_len(b@),
{
    let mut i: usize = 0;
    while i < b.len() && b[i] != 0
        invariant
            i <= b@.len(),
            forall|j: int| 0 <= j < i ==> b@[j] != 0,
        decreases b@.len() - i,
    {
        i = i + 1;
    }
    proof {
        lemma_c_str_len_unique(b@, i as int);
    }
    i
}

/// Copies the first `n` bytes of `b`.
pub fn slice_prefix(b: &[u8], n: usize) -> (r: Vec<u8>)
    requires
        n <= b@.len(),
    ensures
        r@ == b@.take(n as int),
{
    let mut r: Vec<u8> = Vec::new();
    let mut i: usize = 0;
    while i < n
        invariant
            i <= n <= b@.len(),
            r@ == b@.take(i as int),
        decreases n - i,
    {
        r.push(b[i]);
        i = i + 1;
        assert(r@ =~= b@.take(i as int));
    }
    r
}

/// Copies a native string, terminator included. `None` stands for a null pointer and
/// gives an empty vector.
pub fn char_ptr_to_bytes(data: Option<&[u8]>) -> (r: Vec<u8>)
    requires
        data matches Some(b) ==> has_nul(b@),
    ensures
        match data {
            Some(b) => r@ == b@.take(c_str_len(b@) + 1int),
            None => r@.len() == 0,
        },
        data matches Some(b) ==> is_c_string(r@),
{
    match data {
        None => Vec::new(),
        Some(b) => {
            proof {
                lemma_c_str_len(b@);
            }
            let n = c_str_len_of(b);
            assert(has_nul(b@));
            let len = b.len();
            assert(n < len);
            let r = slice_prefix(b, n + 1);
            assert(r@.last() == b@[n as int]);
            r
        },
    }
}

/// Copies a native string and reports its length without the terminator; a null
/// pointer gives an empty vector and length 0.
pub fn char_ptr_to_bytes_and_size(data: Option<&[u8]>) -> (r: (Vec<u8>, usize))
    requires
        data matches Some(b) ==> has_nul(b@),
    ensures
        match data {
            Some(b) => r.0@ == b@.take(c_str_len(b@) + 1int) && r.1 == c_str_len(b@),
            None => r.0@.len() == 0 && r.1 == 0,
        },
{
    if let Some(b) = data {
        proof {
            lemma_c_str_len(b@);
        }
    }
    let data = char_ptr_to_bytes(data);
    let size = if data.len() == 0 {
        0
    } else {
        data.len() - 1
    };
    (data, size)
}

/// An owned byte buffer that keeps a nul terminator after its bytes and reports
/// its length without it, so that it serves both explicit-length and
/// nul-terminated native call shapes.
#[derive(Debug, Clone, PartialEq, Eq)]
pub struct Slice {
    pub data: Vec<u8>,
    pub size: usize,
}

impl Slice {
    /// The reported length is the backing length less the terminator.
    pub open spec fn wf(self) -> bool {
        &&& self.data@.len() == self.size + 1
        &&& self.data@.last() == 0
    }

    /// The bytes the buffer reports, terminator excluded.
    pub open spec fn bytes(self) -> Seq<u8> {
        self.data@.take(self.size as int)
    }

    /// Copies exactly `n` bytes of native memory, which may hold interior nul bytes,
    /// and terminates the copy.
    pub fn from_raw_with_size(d: &[u8], n: usize) -> (r: Slice)
        requires
            n <= d@.len(),
        ensures
            r.wf(),
            r.size == n,
            r.data@ == d@.take(n as int).push(0u8),
    {
        let mut data = slice_prefix(d, n);
        data.push(0u8);
        Slice { data, size: n }
    }

    /// Copies a native nul-terminated string, terminator included. `None` stands
    /// for a null pointer and gives the empty buffer, without reading anything.
    pub fn from_raw(d: Option<&[u8]>) -> (r: Slice)
        requires
            d matches Some(b) ==> has_nul(b@),
        ensures
            r.wf(),
            match d {
                Some(b) => r.data@ == b@.take(c_str_len(b@) + 1int) && r.size == c_str_len(b@),
                None => r.data@ == seq![0u8] && r.size == 0,
            },
    {
        match d {
            None => Slice::default(),
            Some(b) => {
                proof {
                    lemma_c_str_len(b@);
                }
                let (data, size) = char_ptr_to_bytes_and_size(Some(b));
                Slice { data, size }
            },
        }
    }

    pub fn set_size(&mut self, size: usize)
        ensures
            final(self).size == size,
            final(self).data@ == old(self).data@,
    {
        self.size = size;
    }

    pub fn size(&self) -> (r: usize)
        ensures
            r == self.size,
    {
        self.size
    }

    /// Replaces the backing bytes with a copy of a native nul-terminated string;
    /// the reported length is left as it was.
    pub fn set_data(&mut self, d: &[u8])
        requires
            has_nul(d@),
        ensures
            final(self).data@ == d@.take(c_str_len(d@) + 1int),
            final(self).size == old(self).size,
    {
        self.data = char_ptr_to_bytes(Some(d));
    }

    /// The backing bytes, terminator included.
    pub fn data(&self) -> (r: &[u8])
        ensures
            r@ == self.data@,
    {
        self.data.as_slice()
    }
}

impl Default for Slice {
    fn default() -> (r: Slice)
        ensures
            r.data@ == seq![0u8],
            r.size == 0,
    {
        Slice { data: vec![0u8], size: 0 }
    }
}

pub fn default_slice() -> (r: Slice)
    ensures
        r.data@ == seq![0u8],
        r.size == 0,
        r.wf(),
{
    Slice::default()
}

/// What `String::from_utf8_lossy` makes of `b`.
pub uninterp spec fn utf8_lossy(b: Seq<u8>) -> Seq<char>;

/// Relies on `String::from_utf8_lossy`: the decoded text depends on the bytes alone.
#[verifier::external_body]
pub(crate) fn decode_lossy(b: &[u8]) -> (r: String)
    ensures
        r@ == utf8_lossy(b@),
{
    String::from_utf8_lossy(b).into_owned()
}

} // verus!
