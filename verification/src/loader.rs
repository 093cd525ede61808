use vstd::prelude::*;

verus! {

/// A fault raised while turning a raw dataset file into samples.
#[derive(Clone, Copy, Debug, PartialEq, Eq)]
pub enum LoaderError {
    /// The gzip stream could not be decompressed.
    BadGzip,
    /// The format tag at the head of the stream is not a recognized one.
    BadMagic,
    /// The stream ends before the declared header or payload does.
    Truncated,
    /// The declared dimensions are too large for the pixel count to fit in
    /// `usize`.
    Oversize,
    /// An image stream does not declare the three dimensions it must.
    BadDimensions,
}

/// The big-endian 32-bit word held at offset `off` of `d`.
pub open spec fn be_u32_at(d: Seq<u8>, off: int) -> int {
    d[off] * 0x100_0000 + d[off + 1] * 0x1_0000 + d[off + 2] * 0x100 + d[off + 3]
}

/// Reads the big-endian 32-bit word at offset `off`.
fn read_be_u32(d: &Vec<u8>, off: usize) -> (r: u32)
    requires
        off + 4 <= d@.len(),
    ensures
        r as int == be_u32_at(d@, off as int),
{
    let n: usize = d.len();
    assert(off + 4 <= n);
    let b0 = d[off] as u32;
    let b1 = d[off + 1] as u32;
    let b2 = d[off + 2] as u32;
    let b3 = d[off + 3] as u32;
    b0 * 0x100_0000 + b1 * 0x1_0000 + b2 * 0x100 + b3
}

/// Copies the bytes of `d` from `off` to the end.
fn copy_from(d: &Vec<u8>, off: usize) -> (r: Vec<u8>)
    requires
        off <= d@.len(),
    ensures
        r@ == d@.subrange(off as int, d@.len() as int),
{
    let mut r: Vec<u8> = Vec::new();
    let mut i: usize = off;
    while i < d.len()
        invariant
            off <= i <= d@.len(),
            r@ == d@.subrange(off as int, i as int),
        decreases d@.len() - i,
    {
        r.push(d[i]);
        proof {
            assert(d@.subrange(off as int, i + 1) =~= d@.subrange(off as int, i as int).push(d@[i as int]));
        }
        i += 1;
    }
    r
}

/// The format tag of a one-dimensional label stream.
pub const LABEL_MAGIC: u32 = 2049;

/// The format tag of a three-dimensional image stream.
pub const IMAGE_MAGIC: u32 = 2051;

/// What parsing a decompressed dataset stream yields: the declared dimensions
/// and the payload bytes after the header, or the fault.  A label stream
/// declares one dimension after its tag; an image stream declares three.
pub open spec fn spec_parse(d: Seq<u8>) -> Result<(Seq<u32>, Seq<u8>), LoaderError> {
    if d.len() < 4 {
        Err(LoaderError::Truncated)
    } else if be_u32_at(d, 0) == LABEL_MAGIC {
        if d.len() < 8 {
            Err(LoaderError::Truncated)
        } else {
            Ok((seq![be_u32_at(d, 4) as u32], d.subrange(8, d.len() as int)))
        }
    } else if be_u32_at(d, 0) == IMAGE_MAGIC {
        if d.len() < 16 {
            Err(LoaderError::Truncated)
        } else {
            Ok((
                seq![be_u32_at(d, 4) as u32, be_u32_at(d, 8) as u32, be_u32_at(d, 12) as u32],
                d.subrange(16, d.len() as int),
            ))
        }
    } else {
        Err(LoaderError::BadMagic)
    }
}

/// What decompressing a gzip stream yields, as a function of the compressed
/// bytes alone: the payload, or nothing when the stream is malformed.
pub uninterp spec fn gunzip_of(z: Seq<u8>) -> Option<Seq<u8>>;

/// Relies on flate2's `bufread::GzDecoder`, driven by
/// `std::io::Read::read_to_end`: decompression is a pure function of the
/// compressed bytes, yielding the decompressed payload or failing on a
/// malformed stream.
#[verifier::external_body]
fn gunzip(z: &Vec<u8>) -> (r: Option<Vec<u8>>)
    ensures
        r is Some <==> gunzip_of(z@) is Some,
        r matches Some(v) ==> gunzip_of(z@) == Some(v@),
{
    let mut out: Vec<u8> = Vec::new();
    let mut dec = flate2::bufread::GzDecoder::new(z.as_slice());
    match std::io::Read::read_to_end(&mut dec, &mut out) {
        Ok(_) => Some(out),
        Err(_) => None,
    }
}

/// A decompressed dataset stream, split into the dimensions its header
/// declares and the raw payload bytes.
#[derive(Debug)]
pub struct MNistData {
    sizes: Vec<u32>,
    data: Vec<u8>,
}

impl MNistData {
    /// The declared dimensions.
    pub closed spec fn sizes_spec(&self) -> Seq<u32> {
        self.sizes@
    }

    /// The payload bytes after the header.
    pub closed spec fn data_spec(&self) -> Seq<u8> {
        self.data@
    }

    /// The declared dimensions.
    pub fn sizes(&self) -> (r: &Vec<u32>)
        ensures
            r@ == self.sizes_spec(),
    {
        &self.sizes
    }

    /// The payload bytes after the header.
    pub fn data(&self) -> (r: &Vec<u8>)
        ensures
            r@ == self.data_spec(),
    {
        &self.data
    }

    /// Parses a decompressed dataset stream: the format tag, the declared
    /// dimensions, then the payload.
    pub fn parse(d: &Vec<u8>) -> (r: Result<MNistData, LoaderError>)
        ensures
            r is Ok <==> spec_parse(d@) is Ok,
            r matches Ok(m) ==> spec_parse(d@) matches Ok(p) && m.sizes_spec() == p.0
                && m.data_spec() == p.1,
            r matches Err(e) ==> spec_parse(d@) == Err::<(Seq<u32>, Seq<u8>), LoaderError>(e),
    {
        if d.len() < 4 {
            return Err(LoaderError::Truncated);
        }
        let magic = read_be_u32(d, 0);
        if magic == LABEL_MAGIC {
            if d.len() < 8 {
                return Err(LoaderError::Truncated);
            }
            let mut sizes: Vec<u32> = Vec::new();
            sizes.push(read_be_u32(d, 4));
            let data = copy_from(d, 8);
            proof {
                assert(sizes@ =~= seq![be_u32_at(d@, 4) as u32]);
            }
            Ok(MNistData { sizes, data })
        } else if magic == IMAGE_MAGIC {
            if d.len() < 16 {
                return Err(LoaderError::Truncated);
            }
            let mut sizes: Vec<u32> = Vec::new();
            sizes.push(read_be_u32(d, 4));
            sizes.push(read_be_u32(d, 8));
            sizes.push(read_be_u32(d, 12));
            let data = copy_from(d, 16);
            proof {
                assert(sizes@ =~= seq![
                    be_u32_at(d@, 4) as u32,
                    be_u32_at(d@, 8) as u32,
                    be_u32_at(d@, 12) as u32,
                ]);
            }
            Ok(MNistData { sizes, data })
        } else {
            Err(LoaderError::BadMagic)
        }
    }

    /// Decompresses a gzip-compressed dataset stream and parses it.
    pub fn from_gz(z: &Vec<u8>) -> (r: Result<MNistData, LoaderError>)
        ensures
            gunzip_of(z@) is None ==> r == Err::<MNistData, LoaderError>(LoaderError::BadGzip),
            gunzip_of(z@) matches Some(d) ==> {
                &&& (r is Ok <==> spec_parse(d) is Ok)
                &&& (r matches Ok(m) ==> spec_parse(d) matches Ok(p) && m.sizes_spec() == p.0
                    && m.data_spec() == p.1)
                &&& (r matches Err(e) ==> spec_parse(d) == Err::<(Seq<u32>, Seq<u8>), LoaderError>(e))
            },
    {
        match gunzip(z) {
            None => Err(LoaderError::BadGzip),
            Some(d) => Self::parse(&d),
        }
    }
}

/// Pixels per image, as an image stream declares it: rows times columns.
pub open spec fn image_size_of(is: Seq<u32>) -> int {
    is[1] * is[2]
}

/// Payload bytes that the declared image count requires.
pub open spec fn pixel_total_of(is: Seq<u32>) -> int {
    is[0] * image_size_of(is)
}

/// Both pixel counts fit in `usize`.
pub open spec fn sizes_fit(is: Seq<u32>) -> bool {
    image_size_of(is) <= usize::MAX && pixel_total_of(is) <= usize::MAX
}

/// How many samples pairing yields: one per declared image, as far as the
/// label bytes reach.
pub open spec fn sample_count_of(is: Seq<u32>, label_bytes: Seq<u8>) -> int {
    if is[0] <= label_bytes.len() {
        is[0] as int
    } else {
        label_bytes.len() as int
    }
}

/// One labeled sample: the raw pixel bytes of one image, row-major, and its
/// class label.
#[derive(Debug)]
pub struct Sample {
    pub pixels: Vec<u8>,
    pub label: u8,
}

/// Pairs a decompressed image stream with a decompressed label stream into
/// labeled samples.  Image `i` takes the `i`-th block of `rows * cols`
/// payload bytes and the `i`-th label byte.
#[verifier::loop_isolation(false)]
pub fn load_samples(images: &MNistData, labels: &MNistData) -> (r: Result<Vec<Sample>, LoaderError>)
    ensures
        r is Ok <==> images.sizes_spec().len() == 3 && sizes_fit(images.sizes_spec())
            && images.data_spec().len() >= pixel_total_of(images.sizes_spec()),
        images.sizes_spec().len() != 3
            ==> r == Err::<Vec<Sample>, LoaderError>(LoaderError::BadDimensions),
        images.sizes_spec().len() == 3 && !sizes_fit(images.sizes_spec())
            ==> r == Err::<Vec<Sample>, LoaderError>(LoaderError::Oversize),
        images.sizes_spec().len() == 3 && sizes_fit(images.sizes_spec())
            && images.data_spec().len() < pixel_total_of(images.sizes_spec())
            ==> r == Err::<Vec<Sample>, LoaderError>(LoaderError::Truncated),
        r matches Ok(v) ==> {
            &&& v@.len() == sample_count_of(images.sizes_spec(), labels.data_spec())
            &&& forall|i: int| 0 <= i < v@.len() ==> (#[trigger] v@[i]).pixels@
                == images.data_spec().subrange(
                    i * image_size_of(images.sizes_spec()),
                    (i + 1) * image_size_of(images.sizes_spec()),
                )
            &&& forall|i: int| 0 <= i < v@.len()
                ==> (#[trigger] v@[i]).label == labels.data_spec()[i]
        },
{
    if images.sizes.len() != 3 {
        return Err(LoaderError::BadDimensions);
    }
    let n_imgs = images.sizes[0] as usize;
    let rows = images.sizes[1] as usize;
    let cols = images.sizes[2] as usize;
    let rc = match rows.checked_mul(cols) {
        Some(v) => v,
        None => {
            return Err(LoaderError::Oversize);
        },
    };
    let total = match n_imgs.checked_mul(rc) {
        Some(v) => v,
        None => {
            return Err(LoaderError::Oversize);
        },
    };
    if images.data.len() < total {
        return Err(LoaderError::Truncated);
    }
    let n = if n_imgs <= labels.data.len() {
        n_imgs
    } else {
        labels.data.len()
    };
    let mut out: Vec<Sample> = Vec::new();
    let mut start: usize = 0;
    let mut i: usize = 0;
    while i < n
        invariant
            i <= n,
            start as int == i * rc,
            out@.len() == i,
            forall|k: int| 0 <= k < i ==> (#[trigger] out@[k]).pixels@
                == images.data_spec().subrange(k * rc, (k + 1) * rc),
            forall|k: int| 0 <= k < i ==> (#[trigger] out@[k]).label == labels.data_spec()[k],
        decreases n - i,
    {
        proof {
            assert(i * rc + rc == (i + 1) * rc) by (nonlinear_arith);
            assert((i + 1) * rc <= n_imgs * rc) by (nonlinear_arith)
                requires i + 1 <= n_imgs, rc >= 0,
            {}
        }
        let end = start + rc;
        let mut pixels: Vec<u8> = Vec::new();
        let mut j: usize = start;
        while j < end
            invariant
                start <= j <= end,
                pixels@ == images.data@.subrange(start as int, j as int),
            decreases end - j,
        {
            pixels.push(images.data[j]);
            proof {
                assert(images.data@.subrange(start as int, j + 1)
                    =~= images.data@.subrange(start as int, j as int).push(images.data@[j as int]));
            }
            j += 1;
        }
        out.push(Sample { pixels, label: labels.data[i] });
        start = end;
        i += 1;
    }
    Ok(out)
}

/// The one-hot target vector for class `class` among `n` classes, as 0/1
/// entries: the entry at `class` is 1 and every other entry is 0.
pub fn one_hot(class: usize, n: usize) -> (r: Vec<u8>)
    requires
        class < n,
    ensures
        r@.len() == n,
        forall|i: int| 0 <= i < n ==> #[trigger] r@[i] == (if i == class as int {
            1u8
        } else {
            0u8
        }),
{
    let mut r: Vec<u8> = Vec::new();
    let mut i: usize = 0;
    while i < n
        invariant
            i <= n,
            r@.len() == i,
            forall|k: int| 0 <= k < i ==> #[trigger] r@[k] == (if k == class as int {
                1u8
            } else {
                0u8
            }),
        decreases n - i,
    {
        if i == class {
            r.push(1);
        } else {
            r.push(0);
        }
        i += 1;
    }
    r
}

} // verus!
