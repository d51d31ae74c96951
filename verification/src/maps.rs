//! The target's memory mappings and the reconstruction of a module's byte
//! image from them.
//!
//! Enumerating `/proc/<pid>/maps` and reading remote memory happen at the
//! I/O edge; the caller hands in the enumerated [`Mapping`] records and the
//! bytes read for each, and this module does the selection and assembly.

use vstd::prelude::*;

use crate::errors::InjectionError;
use crate::resolv::RemoteModule;

verus! {

/// One contiguous mapped region of the target's address space.
#[derive(Debug)]
pub struct Mapping {
    /// First virtual address of the region.
    pub start: usize,
    /// Length of the region in bytes.
    pub size: usize,
    /// Offset of the region into its backing file.
    pub offset: usize,
    /// Path of the backing file, when the region is file-backed.
    pub filename: Option<String>,
}

/// Does `s` begin with `prefix`?
pub open spec fn starts_with(s: Seq<char>, prefix: Seq<char>) -> bool {
    prefix.len() <= s.len() && s.subrange(0, prefix.len() as int) == prefix
}

/// Index after the last `/` of `p`; 0 when `p` holds none.
pub open spec fn basename_start(p: Seq<char>) -> int
    decreases p.len(),
{
    if p.len() == 0 {
        0
    } else if p.last() == '/' {
        p.len() as int
    } else {
        basename_start(p.drop_last())
    }
}

/// Final path component of `p`: everything after its last `/`.
pub open spec fn basename(p: Seq<char>) -> Seq<char> {
    p.subrange(basename_start(p), p.len() as int)
}

/// Every mapping selected by [`matching_maps`] satisfies
/// [`mapping_matches`].
pub proof fn lemma_matching_maps_all(s: Seq<Mapping>, name: Seq<char>)
    ensures
        forall|i: int|
            0 <= i < matching_maps(s, name).len() ==> #[trigger] mapping_matches(
                matching_maps(s, name)[i],
                name,
            ),
    decreases s.len(),
{
    if s.len() == 0 {
    } else {
        lemma_matching_maps_all(s.drop_last(), name);
        let pre = matching_maps(s.drop_last(), name);
        let whole = matching_maps(s, name);
        assert forall|i: int| 0 <= i < whole.len() implies #[trigger] mapping_matches(
            whole[i],
            name,
        ) by {
            if i < pre.len() {
                assert(whole[i] == pre[i]);
            } else {
                assert(whole[i] == s.last());
            }
        }
    }
}

pub proof fn lemma_basename_start_bounds(p: Seq<char>)
    ensures
        0 <= basename_start(p) <= p.len(),
    decreases p.len(),
{
    if p.len() == 0 {
    } else if p.last() == '/' {
    } else {
        lemma_basename_start_bounds(p.drop_last());
    }
}

/// A mapping belongs to module `name` when it is file-backed and the final
/// path component of its backing file starts with `name`.
pub open spec fn mapping_matches(m: Mapping, name: Seq<char>) -> bool {
    m.filename matches Some(f) && starts_with(basename(f@), name)
}

/// The mappings of `s` that belong to module `name`, in enumeration order.
pub open spec fn matching_maps(s: Seq<Mapping>, name: Seq<char>) -> Seq<Mapping>
    decreases s.len(),
{
    if s.len() == 0 {
        Seq::empty()
    } else {
        matching_maps(s.drop_last(), name) + if mapping_matches(s.last(), name) {
            seq![s.last()]
        } else {
            Seq::empty()
        }
    }
}

/// `s` truncated or zero-extended to length `n`.
pub open spec fn resize_bytes(s: Seq<u8>, n: int) -> Seq<u8> {
    if n <= s.len() {
        s.subrange(0, n)
    } else {
        s + Seq::new((n - s.len()) as nat, |i: int| 0u8)
    }
}

/// The flattened module image: for every matching mapping in order, the
/// image so far is resized to the mapping's file offset (zero-filling any
/// gap) and the bytes read from the mapping's virtual range are appended.
pub open spec fn spec_image(maps: Seq<Mapping>, chunks: Seq<Seq<u8>>) -> Seq<u8>
    decreases maps.len(),
{
    if maps.len() == 0 {
        Seq::empty()
    } else {
        resize_bytes(
            spec_image(maps.drop_last(), chunks.drop_last()),
            maps.last().offset as int,
        ) + chunks.last()
    }
}

/// Index after the last `/` of `path`.
fn find_basename_start(path: &str) -> (r: usize)
    ensures
        r == basename_start(path@),
{
    let n = path.unicode_len();
    let mut i = n;
    proof {
        assert(path@.take(n as int) =~= path@);
    }
    while i > 0
        invariant
            i <= n,
            n == path@.len(),
            basename_start(path@) == basename_start(path@.take(i as int)),
        decreases i,
    {
        if path.get_char(i - 1) == '/' {
            return i;
        }
        proof {
            assert(path@.take(i as int).drop_last() =~= path@.take(i - 1));
        }
        i = i - 1;
    }
    proof {
        assert(path@.take(0) =~= Seq::<char>::empty());
    }
    0
}

/// Does the final path component of `m`'s backing file start with `name`?
fn mapping_matches_exec(m: &Mapping, name: &str) -> (b: bool)
    ensures
        b == mapping_matches(*m, name@),
{
    match &m.filename {
        Option::None => false,
        Option::Some(f) => {
            let path = f.as_str();
            let cut = find_basename_start(path);
            let plen = path.unicode_len();
            let nlen = name.unicode_len();
            proof {
                lemma_basename_start_bounds(path@);
            }
            if nlen > plen - cut {
                assert(!starts_with(basename(f@), name@));
                return false;
            }
            let mut j: usize = 0;
            while j < nlen
                invariant
                    j <= nlen,
                    nlen == name@.len(),
                    plen == path@.len(),
                    cut == basename_start(path@),
                    cut <= plen,
                    nlen <= plen - cut,
                    path@ == f@,
                    m.filename == Option::Some(*f),
                    forall|k: int| 0 <= k < j ==> path@[cut + k] == name@[k],
                decreases nlen - j,
            {
                if path.get_char(cut + j) != name.get_char(j) {
                    proof {
                        if starts_with(basename(f@), name@) {
                            assert(basename(f@).subrange(0, nlen as int)[j as int] == basename(
                                f@,
                            )[j as int]);
                            assert(basename(f@)[j as int] == f@[basename_start(f@) + j]);
                            assert(false);
                        }
                    }
                    return false;
                }
                j = j + 1;
            }
            proof {
                assert forall|k: int| 0 <= k < nlen implies basename(f@)[k] == name@[k] by {
                    assert(basename(f@)[k] == f@[basename_start(f@) + k]);
                }
                assert(basename(f@).subrange(0, nlen as int) =~= name@);
            }
            true
        },
    }
}

/// A field-for-field copy of `m`.
pub fn copy_mapping(m: &Mapping) -> (r: Mapping)
    ensures
        r == *m,
{
    Mapping {
        start: m.start,
        size: m.size,
        offset: m.offset,
        filename: match &m.filename {
            Option::Some(f) => Some(f.clone()),
            Option::None => None,
        },
    }
}

/// A snapshot of the target's enumerated memory mappings.
///
/// The enumeration itself is performed at the I/O edge; the snapshot is
/// handed in and selection and reconstruction are decided here.
#[derive(Debug)]
pub struct Maps {
    pub pid: i32,
    pub mappings: Vec<Mapping>,
}

impl Maps {
    /// A snapshot of `pid`'s mappings, as enumerated at the I/O edge.
    pub fn new(pid: i32, mappings: Vec<Mapping>) -> (r: Maps)
        ensures
            r.pid == pid,
            r.mappings == mappings,
    {
        Maps { pid, mappings }
    }

    /// The mappings that belong to module `name`, in enumeration order;
    /// `ModuleNotFound` when none matches.
    pub fn maps_by_name(&self, name: &str) -> (r: Result<Vec<Mapping>, InjectionError>)
        ensures
            match r {
                Ok(v) => v@ == matching_maps(self.mappings@, name@) && v@.len() > 0,
                Err(e) => e == InjectionError::ModuleNotFound && matching_maps(
                    self.mappings@,
                    name@,
                ).len() == 0,
            },
    {
        let mut out: Vec<Mapping> = Vec::new();
        let mut i: usize = 0;
        let n = self.mappings.len();
        proof {
            assert(self.mappings@.take(0) =~= Seq::<Mapping>::empty());
        }
        while i < n
            invariant
                i <= n,
                n == self.mappings@.len(),
                out@ == matching_maps(self.mappings@.take(i as int), name@),
            decreases n - i,
        {
            let m = &self.mappings[i];
            proof {
                assert(self.mappings@.take(i + 1).drop_last() =~= self.mappings@.take(i as int));
                assert(self.mappings@.take(i + 1).last() == self.mappings@[i as int]);
            }
            if mapping_matches_exec(m, name) {
                out.push(copy_mapping(m));
                proof {
                    assert(out@ =~= matching_maps(self.mappings@.take(i + 1), name@));
                }
            } else {
                proof {
                    assert(out@ =~= matching_maps(self.mappings@.take(i + 1), name@));
                }
            }
            i = i + 1;
        }
        proof {
            assert(self.mappings@.take(n as int) =~= self.mappings@);
        }
        if out.len() == 0 {
            Err(InjectionError::ModuleNotFound)
        } else {
            Ok(out)
        }
    }

    /// The flattened byte image of module `name`, assembled from the
    /// matching mappings and the remote bytes read for each of them at the
    /// I/O edge (`chunks[i]` holds the bytes of the `i`-th matching
    /// mapping's virtual range).
    pub fn module_bytes(&self, module_name: &str, chunks: &Vec<Vec<u8>>) -> (r: Result<
        Vec<u8>,
        InjectionError,
    >)
        requires
            chunks@.len() == matching_maps(self.mappings@, module_name@).len(),
        ensures
            match r {
                Ok(img) => img@ == spec_image(
                    matching_maps(self.mappings@, module_name@),
                    chunks@.map_values(|c: Vec<u8>| c@),
                ) && matching_maps(self.mappings@, module_name@).len() > 0,
                Err(e) => e == InjectionError::ModuleNotFound && matching_maps(
                    self.mappings@,
                    module_name@,
                ).len() == 0,
            },
    {
        let matched = match self.maps_by_name(module_name) {
            Ok(v) => v,
            Err(e) => {
                return Err(e);
            },
        };
        let mut img: Vec<u8> = Vec::new();
        let mut i: usize = 0;
        let n = matched.len();
        let ghost cviews = chunks@.map_values(|c: Vec<u8>| c@);
        proof {
            assert(matched@.take(0) =~= Seq::<Mapping>::empty());
            assert(cviews.take(0) =~= Seq::<Seq<u8>>::empty());
        }
        while i < n
            invariant
                i <= n,
                n == matched@.len(),
                n == chunks@.len(),
                cviews == chunks@.map_values(|c: Vec<u8>| c@),
                img@ == spec_image(matched@.take(i as int), cviews.take(i as int)),
            decreases n - i,
        {
            pad_to(&mut img, matched[i].offset);
            append_bytes(&mut img, &chunks[i]);
            proof {
                assert(matched@.take(i + 1).drop_last() =~= matched@.take(i as int));
                assert(cviews.take(i + 1).drop_last() =~= cviews.take(i as int));
                assert(matched@.take(i + 1).last() == matched@[i as int]);
                assert(cviews.take(i + 1).last() == chunks@[i as int]@);
            }
            i = i + 1;
        }
        proof {
            assert(matched@.take(n as int) =~= matched@);
            assert(cviews.take(n as int) =~= cviews);
        }
        Ok(img)
    }

    /// The reconstructed module: named after the first matching mapping's
    /// backing file, based at its start address, with the flattened image.
    pub fn module(&self, module_name: &str, chunks: &Vec<Vec<u8>>) -> (r: Result<
        RemoteModule,
        InjectionError,
    >)
        requires
            chunks@.len() == matching_maps(self.mappings@, module_name@).len(),
        ensures
            match r {
                Ok(m) => {
                    let matched = matching_maps(self.mappings@, module_name@);
                    &&& matched.len() > 0
                    &&& matched[0].filename matches Some(f) && m.name@ == f@
                    &&& m.vm_addr == matched[0].start
                    &&& m.image@ == spec_image(matched, chunks@.map_values(|c: Vec<u8>| c@))
                },
                Err(e) => e == InjectionError::ModuleNotFound && matching_maps(
                    self.mappings@,
                    module_name@,
                ).len() == 0,
            },
    {
        let matched = match self.maps_by_name(module_name) {
            Ok(v) => v,
            Err(e) => {
                return Err(e);
            },
        };
        let img = match self.module_bytes(module_name, chunks) {
            Ok(v) => v,
            Err(e) => {
                return Err(e);
            },
        };
        proof {
            lemma_matching_maps_all(self.mappings@, module_name@);
            assert(matching_maps(self.mappings@, module_name@)[0] == matched@[0]);
        }
        match &matched[0].filename {
            Option::Some(f) => Ok(RemoteModule { name: f.clone(), vm_addr: matched[0].start, image: img }),
            Option::None => {
                // A matching mapping is file-backed by definition.
                assert(mapping_matches(matched@[0], module_name@));
                unreached()
            },
        }
    }
}

/// Truncate or zero-extend `v` to length `n`.
fn pad_to(v: &mut Vec<u8>, n: usize)
    ensures
        final(v)@ == resize_bytes(old(v)@, n as int),
{
    if n <= v.len() {
        v.truncate(n);
    } else {
        let ghost base = v@;
        proof {
            assert(v@ =~= base + Seq::new(0nat, |i: int| 0u8));
        }
        while v.len() < n
            invariant
                base.len() <= v@.len() <= n,
                v@ == base + Seq::new((v@.len() - base.len()) as nat, |i: int| 0u8),
            decreases n - v.len(),
        {
            let ghost before = v@;
            v.push(0);
            proof {
                assert(v@ =~= base + Seq::new((before.len() + 1 - base.len()) as nat, |i: int| 0u8));
            }
        }
        proof {
            assert(v@ =~= resize_bytes(base, n as int));
        }
    }
}

/// Append a copy of `src` to `dst`.
pub fn append_bytes(dst: &mut Vec<u8>, src: &Vec<u8>)
    ensures
        final(dst)@ == old(dst)@ + src@,
{
    let mut i: usize = 0;
    let n = src.len();
    proof {
        assert(old(dst)@ + src@.take(0) =~= old(dst)@);
    }
    while i < n
        invariant
            i <= n,
            n == src@.len(),
            dst@ == old(dst)@ + src@.take(i as int),
        decreases n - i,
    {
        dst.push(src[i]);
        proof {
            assert(old(dst)@ + src@.take(i + 1) =~= (old(dst)@ + src@.take(i as int)).push(
                src@[i as int],
            ));
        }
        i = i + 1;
    }
    proof {
        assert(src@.take(n as int) =~= src@);
    }
}

} // verus!
