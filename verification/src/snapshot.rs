//! Layered snapshot format.
//!
//! On disk a snapshot is `MAGIC (8 bytes)`, `VERSION (u16 LE)`, a run of
//! strata framed as `TAG (u16 LE) LEN (u32 LE) DATA`, and a trailing
//! `CRC32 (u32 LE)` over everything before it. Tag 0 is the header; tags
//! 1..=6 are the strata of [`StratumTag`]; unknown tags are skipped.
use vstd::bytes::*;
use vstd::prelude::*;

verus! {

broadcast use vstd::seq_lib::group_seq_properties;

/// The format version this crate writes.
pub const FORMAT_VERSION: u16 = 2;

/// The eight magic bytes `BUASNAP\x02`.
pub open spec fn magic() -> Seq<u8> {
    seq![0x42u8, 0x55u8, 0x41u8, 0x53u8, 0x4Eu8, 0x41u8, 0x50u8, 0x02u8]
}

// ---------------------------------------------------------------------------
// CRC-32 (reflected, polynomial 0xEDB88320)
// ---------------------------------------------------------------------------

/// One shift of the reflected CRC-32 register.
pub open spec fn crc_round(c: u32) -> u32 {
    if c & 1 != 0 {
        (c >> 1) ^ 0xEDB8_8320u32
    } else {
        c >> 1
    }
}

/// `k` shifts of the register.
pub open spec fn crc_rounds(c: u32, k: nat) -> u32
    decreases k,
{
    if k == 0 {
        c
    } else {
        crc_round(crc_rounds(c, (k - 1) as nat))
    }
}

/// The register after feeding `data`, starting from all ones.
pub open spec fn crc_state(data: Seq<u8>) -> u32
    decreases data.len(),
{
    if data.len() == 0 {
        0xFFFF_FFFFu32
    } else {
        crc_rounds(crc_state(data.drop_last()) ^ (data.last() as u32), 8)
    }
}

/// The CRC-32 of `data`.
pub open spec fn crc32(data: Seq<u8>) -> u32 {
    crc_state(data) ^ 0xFFFF_FFFFu32
}

/// The CRC-32 checksum of `data` (the variant used by zip and PNG).
pub fn crc32_simple(data: &[u8]) -> (crc: u32)
    ensures
        crc == crc32(data@),
{
    let mut crc: u32 = 0xFFFF_FFFF;
    let mut i: usize = 0;
    while i < data.len()
        invariant
            i <= data@.len(),
            crc == crc_state(data@.take(i as int)),
        decreases data.len() - i,
    {
        let byte = data[i];
        crc = crc ^ (byte as u32);
        let ghost start = crc;
        let mut k: usize = 0;
        while k < 8
            invariant
                k <= 8,
                crc == crc_rounds(start, k as nat),
            decreases 8 - k,
        {
            crc = if crc & 1 != 0 {
                (crc >> 1) ^ 0xEDB8_8320
            } else {
                crc >> 1
            };
            k = k + 1;
        }
        assert(data@.take(i + 1).drop_last() =~= data@.take(i as int));
        i = i + 1;
    }
    assert(data@.take(data@.len() as int) =~= data@);
    crc ^ 0xFFFF_FFFF
}

// ---------------------------------------------------------------------------
// Frames
// ---------------------------------------------------------------------------

/// One framed stratum: its tag and its payload bytes.
#[derive(Debug)]
pub struct Frame {
    pub tag: u16,
    pub payload: Vec<u8>,
}

impl View for Frame {
    type V = (u16, Seq<u8>);

    open spec fn view(&self) -> (u16, Seq<u8>) {
        (self.tag, self.payload@)
    }
}

/// The bytes of one frame.
pub open spec fn frame_bytes(f: (u16, Seq<u8>)) -> Seq<u8> {
    spec_u16_to_le_bytes(f.0) + spec_u32_to_le_bytes(f.1.len() as u32) + f.1
}

/// The bytes of a run of frames.
pub open spec fn frames_bytes(fs: Seq<(u16, Seq<u8>)>) -> Seq<u8>
    decreases fs.len(),
{
    if fs.len() == 0 {
        Seq::empty()
    } else {
        frame_bytes(fs[0]) + frames_bytes(fs.skip(1))
    }
}

/// The views of a list of frames.
pub open spec fn frames_view(fs: Seq<Frame>) -> Seq<(u16, Seq<u8>)> {
    fs.map_values(|f: Frame| f@)
}

/// Whether every payload length fits the 32-bit length field.
pub open spec fn lengths_fit(fs: Seq<(u16, Seq<u8>)>) -> bool {
    forall|i: int| 0 <= i < fs.len() ==> #[trigger] fs[i].1.len() <= u32::MAX
}

/// The bytes before the checksum: magic, version, frames.
pub open spec fn body_bytes(fs: Seq<(u16, Seq<u8>)>) -> Seq<u8> {
    magic() + spec_u16_to_le_bytes(FORMAT_VERSION) + frames_bytes(fs)
}

/// A whole encoded snapshot.
pub open spec fn spec_encode(fs: Seq<(u16, Seq<u8>)>) -> Seq<u8> {
    body_bytes(fs) + spec_u32_to_le_bytes(crc32(body_bytes(fs)))
}

proof fn lemma_frames_bytes_push(fs: Seq<(u16, Seq<u8>)>, f: (u16, Seq<u8>))
    ensures
        frames_bytes(fs.push(f)) == frames_bytes(fs) + frame_bytes(f),
    decreases fs.len(),
{
    if fs.len() == 0 {
        assert(fs.push(f).skip(1) =~= Seq::<(u16, Seq<u8>)>::empty());
        assert(frames_bytes(fs.push(f)) =~= frame_bytes(f));
    } else {
        assert(fs.push(f).skip(1) =~= fs.skip(1).push(f));
        lemma_frames_bytes_push(fs.skip(1), f);
        assert(frames_bytes(fs.push(f)) =~= frames_bytes(fs) + frame_bytes(f));
    }
}

/// Appends `bytes` to `out`.
pub(crate) fn push_all(out: &mut Vec<u8>, bytes: &[u8])
    ensures
        final(out)@ == old(out)@ + bytes@,
{
    let mut i: usize = 0;
    while i < bytes.len()
        invariant
            i <= bytes@.len(),
            out@ == old(out)@ + bytes@.take(i as int),
        decreases bytes.len() - i,
    {
        out.push(bytes[i]);
        i = i + 1;
        assert(out@ =~= old(out)@ + bytes@.take(i as int));
    }
    assert(bytes@.take(bytes@.len() as int) =~= bytes@);
}

/// Encodes frames into a snapshot: magic, version, the frames in order, and
/// the CRC-32 of all of it.
pub fn encode_frames(frames: &Vec<Frame>) -> (out: Vec<u8>)
    requires
        lengths_fit(frames_view(frames@)),
    ensures
        out@ == spec_encode(frames_view(frames@)),
{
    let ghost fs = frames_view(frames@);
    let mut out: Vec<u8> = Vec::new();
    out.push(0x42);
    out.push(0x55);
    out.push(0x41);
    out.push(0x53);
    out.push(0x4E);
    out.push(0x41);
    out.push(0x50);
    out.push(0x02);
    let version = u16_to_le_bytes(FORMAT_VERSION);
    push_all(&mut out, version.as_slice());
    assert(out@ =~= magic() + spec_u16_to_le_bytes(FORMAT_VERSION));
    let mut i: usize = 0;
    while i < frames.len()
        invariant
            i <= frames@.len(),
            fs == frames_view(frames@),
            lengths_fit(fs),
            out@ == magic() + spec_u16_to_le_bytes(FORMAT_VERSION) + frames_bytes(fs.take(i as int)),
        decreases frames.len() - i,
    {
        let f = &frames[i];
        assert(fs[i as int] == f@);
        assert(fs[i as int].1.len() <= u32::MAX);
        let tag = u16_to_le_bytes(f.tag);
        push_all(&mut out, tag.as_slice());
        let len = u32_to_le_bytes(f.payload.len() as u32);
        push_all(&mut out, len.as_slice());
        push_all(&mut out, f.payload.as_slice());
        proof {
            assert(fs.take(i + 1) =~= fs.take(i as int).push(f@));
            lemma_frames_bytes_push(fs.take(i as int), f@);
        }
        i = i + 1;
        assert(out@ =~= magic() + spec_u16_to_le_bytes(FORMAT_VERSION) + frames_bytes(fs.take(i as int)));
    }
    assert(fs.take(frames@.len() as int) =~= fs);
    let crc = crc32_simple(out.as_slice());
    let crc_bytes = u32_to_le_bytes(crc);
    push_all(&mut out, crc_bytes.as_slice());
    out
}

// ---------------------------------------------------------------------------
// Decoding
// ---------------------------------------------------------------------------

/// Why a byte string is not a snapshot.
#[derive(Debug, Clone, Copy, PartialEq, Eq, Structural)]
pub enum DecodeError {
    /// Fewer than 14 bytes.
    TooShort,
    /// The first eight bytes are not the magic.
    BadMagic,
    /// The stored checksum differs from the one computed over the body.
    CrcMismatch { stored: u32, computed: u32 },
    /// The version is newer than [`FORMAT_VERSION`].
    UnsupportedVersion(u16),
    /// A stratum's length runs past the checksum.
    StratumOverflow,
}

/// The frames found in `data[pos..end]`; `None` when a frame's length runs
/// past `end`. Fewer than six bytes left over are ignored.
pub open spec fn spec_parse_frames(data: Seq<u8>, pos: int, end: int) -> Option<Seq<(u16, Seq<u8>)>>
    decreases end - pos,
{
    if pos < 0 || pos + 6 > end || end > data.len() {
        Some(Seq::empty())
    } else {
        let tag = spec_u16_from_le_bytes(data.subrange(pos, pos + 2));
        let len = spec_u32_from_le_bytes(data.subrange(pos + 2, pos + 6)) as int;
        if pos + 6 + len > end {
            None
        } else {
            match spec_parse_frames(data, pos + 6 + len, end) {
                Some(rest) => Some(seq![(tag, data.subrange(pos + 6, pos + 6 + len))] + rest),
                None => None,
            }
        }
    }
}

/// What decoding `data` gives: the version and the frames, or the error.
pub open spec fn spec_decode(data: Seq<u8>) -> Result<(u16, Seq<(u16, Seq<u8>)>), DecodeError> {
    if data.len() < 14 {
        Err(DecodeError::TooShort)
    } else if data.take(8) != magic() {
        Err(DecodeError::BadMagic)
    } else {
        let off = data.len() - 4;
        let stored = spec_u32_from_le_bytes(data.subrange(off, data.len() as int));
        let computed = crc32(data.take(off));
        if stored != computed {
            Err(DecodeError::CrcMismatch { stored, computed })
        } else {
            let version = spec_u16_from_le_bytes(data.subrange(8, 10));
            if version > FORMAT_VERSION {
                Err(DecodeError::UnsupportedVersion(version))
            } else {
                match spec_parse_frames(data, 10, off) {
                    Some(fs) => Ok((version, fs)),
                    None => Err(DecodeError::StratumOverflow),
                }
            }
        }
    }
}

/// A decoded snapshot: its version and its frames in file order.
#[derive(Debug)]
pub struct DecodedFrames {
    pub version: u16,
    pub frames: Vec<Frame>,
}

/// Decodes a snapshot into its frames, checking length, magic, checksum,
/// version and frame bounds in that order.
pub fn decode_frames(data: &[u8]) -> (r: Result<DecodedFrames, DecodeError>)
    ensures
        match r {
            Ok(d) => spec_decode(data@) == Ok::<_, DecodeError>((d.version, frames_view(d.frames@))),
            Err(e) => spec_decode(data@) == Err::<(u16, Seq<(u16, Seq<u8>)>), _>(e),
        },
{
    if data.len() < 14 {
        return Err(DecodeError::TooShort);
    }
    let magic_ok = data[0] == 0x42 && data[1] == 0x55 && data[2] == 0x41 && data[3] == 0x53
        && data[4] == 0x4E && data[5] == 0x41 && data[6] == 0x50 && data[7] == 0x02;
    proof {
        if magic_ok {
            assert(data@.take(8) =~= magic());
        } else {
            assert(data@.take(8) != magic()) by {
                if data@.take(8) == magic() {
                    assert(data@.take(8)[0] == data@[0]);
                    assert(data@.take(8)[1] == data@[1]);
                    assert(data@.take(8)[2] == data@[2]);
                    assert(data@.take(8)[3] == data@[3]);
                    assert(data@.take(8)[4] == data@[4]);
                    assert(data@.take(8)[5] == data@[5]);
                    assert(data@.take(8)[6] == data@[6]);
                    assert(data@.take(8)[7] == data@[7]);
                }
            }
        }
    }
    if !magic_ok {
        return Err(DecodeError::BadMagic);
    }
    let crc_offset = data.len() - 4;
    let stored = u32_from_le_bytes(&data[crc_offset..data.len()]);
    let computed = crc32_simple(&data[0..crc_offset]);
    assert(data@.subrange(0, crc_offset as int) =~= data@.take(crc_offset as int));
    if stored != computed {
        return Err(DecodeError::CrcMismatch { stored, computed });
    }
    let version = u16_from_le_bytes(&data[8..10]);
    if version > FORMAT_VERSION {
        return Err(DecodeError::UnsupportedVersion(version));
    }
    let mut frames: Vec<Frame> = Vec::new();
    let mut pos: usize = 10;
    assert(spec_decode(data@) == match spec_parse_frames(data@, 10, crc_offset as int) {
        Some(fs) => Ok((version, fs)),
        None => Err(DecodeError::StratumOverflow),
    });
    while crc_offset - pos >= 6
        invariant
            10 <= pos <= crc_offset,
            crc_offset == data.len() - 4,
            spec_decode(data@) == match spec_parse_frames(data@, 10, crc_offset as int) {
                Some(fs) => Ok((version, fs)),
                None => Err(DecodeError::StratumOverflow),
            },
            spec_parse_frames(data@, 10, crc_offset as int) == match spec_parse_frames(
                data@,
                pos as int,
                crc_offset as int,
            ) {
                Some(rest) => Some(frames_view(frames@) + rest),
                None => None,
            },
        decreases crc_offset - pos,
    {
        let ghost old_pos = pos as int;
        let ghost before = frames_view(frames@);
        let tag = u16_from_le_bytes(&data[pos..pos + 2]);
        let len = u32_from_le_bytes(&data[pos + 2..pos + 6]) as usize;
        pos = pos + 6;
        if len > crc_offset - pos {
            return Err(DecodeError::StratumOverflow);
        }
        let mut payload: Vec<u8> = Vec::new();
        push_all(&mut payload, &data[pos..pos + len]);
        let ghost fv = (tag, payload@);
        frames.push(Frame { tag, payload });
        pos = pos + len;
        proof {
            assert(payload@ =~= data@.subrange(old_pos + 6, old_pos + 6 + len));
            assert(frames_view(frames@) =~= before.push(fv));
            match spec_parse_frames(data@, pos as int, crc_offset as int) {
                Some(rest) => {
                    assert(before + (seq![fv] + rest) =~= before.push(fv) + rest);
                },
                None => {},
            }
        }
    }
    let frames_done = frames;
    assert(spec_parse_frames(data@, pos as int, crc_offset as int) == Some(Seq::<(u16, Seq<u8>)>::empty()));
    assert(frames_view(frames_done@) + Seq::<(u16, Seq<u8>)>::empty() =~= frames_view(frames_done@));
    Ok(DecodedFrames { version, frames: frames_done })
}

// ---------------------------------------------------------------------------
// Laws
// ---------------------------------------------------------------------------

proof fn lemma_parse_encoded_frames(data: Seq<u8>, p: int, fs: Seq<(u16, Seq<u8>)>)
    requires
        0 <= p,
        p + frames_bytes(fs).len() <= data.len(),
        data.subrange(p, p + frames_bytes(fs).len()) == frames_bytes(fs),
        lengths_fit(fs),
    ensures
        spec_parse_frames(data, p, p + frames_bytes(fs).len()) == Some(fs),
    decreases fs.len(),
{
    let end = p + frames_bytes(fs).len();
    if fs.len() == 0 {
        assert(spec_parse_frames(data, p, end) == Some(Seq::<(u16, Seq<u8>)>::empty()));
        assert(fs =~= Seq::<(u16, Seq<u8>)>::empty());
    } else {
        let f = fs[0];
        let rest = fs.skip(1);
        lemma_auto_spec_u16_to_from_le_bytes();
        lemma_auto_spec_u32_to_from_le_bytes();
        let fb = frame_bytes(f);
        assert(frames_bytes(fs) == fb + frames_bytes(rest));
        assert(f.1.len() <= u32::MAX);
        let len: int = f.1.len() as int;
        assert(fb.len() == 6 + len);
        let whole = data.subrange(p, end);
        assert(data.subrange(p, p + 2) =~= whole.subrange(0, 2));
        assert(whole.subrange(0, 2) =~= spec_u16_to_le_bytes(f.0));
        assert(data.subrange(p + 2, p + 6) =~= whole.subrange(2, 6));
        assert(whole.subrange(2, 6) =~= spec_u32_to_le_bytes(len as u32));
        assert(whole == fb + frames_bytes(rest));
        assert(whole.subrange(6, 6 + len) =~= f.1);
        assert(data.subrange(p + 6, p + 6 + len) =~= whole.subrange(6, 6 + len));
        assert(whole.subrange(6 + len, whole.len() as int) =~= frames_bytes(rest));
        assert(data.subrange(p + 6 + len, p + 6 + len + frames_bytes(rest).len()) =~= whole.subrange(6 + len, whole.len() as int));
        assert(data.subrange(p + 6 + len, p + 6 + len + frames_bytes(rest).len()) =~= frames_bytes(
            rest,
        ));
        assert forall|i: int| 0 <= i < rest.len() implies #[trigger] rest[i].1.len() <= u32::MAX by {
            assert(rest[i] == fs[i + 1]);
        }
        lemma_parse_encoded_frames(data, p + 6 + len, rest);
        assert(seq![f] + rest =~= fs);
    }
}

/// Reading back what was written: decoding an encoded run of frames gives
/// the same frames, in the same order, under the current format version.
pub proof fn law_snapshot_roundtrip(fs: Seq<(u16, Seq<u8>)>)
    requires
        lengths_fit(fs),
    ensures
        spec_decode(spec_encode(fs)) == Ok::<_, DecodeError>((FORMAT_VERSION, fs)),
{
    lemma_auto_spec_u16_to_from_le_bytes();
    lemma_auto_spec_u32_to_from_le_bytes();
    let body = body_bytes(fs);
    let data = spec_encode(fs);
    let off = data.len() - 4;
    assert(off == body.len());
    assert(data.take(8) =~= magic());
    assert(data.take(off) =~= body);
    assert(data.subrange(off, data.len() as int) =~= spec_u32_to_le_bytes(crc32(body)));
    assert(data.subrange(8, 10) =~= spec_u16_to_le_bytes(FORMAT_VERSION));
    assert(data.subrange(10, 10 + frames_bytes(fs).len() as int) =~= frames_bytes(fs));
    lemma_parse_encoded_frames(data, 10, fs);
}

/// Every encoded snapshot passes the integrity checks: it is long enough,
/// starts with the magic, and carries the checksum of its body.
pub proof fn law_encoded_snapshot_checks(fs: Seq<(u16, Seq<u8>)>)
    ensures
        spec_encode(fs).len() >= 14,
        spec_encode(fs).take(8) == magic(),
        spec_u32_from_le_bytes(spec_encode(fs).subrange(spec_encode(fs).len() - 4, spec_encode(fs).len() as int))
            == crc32(spec_encode(fs).take(spec_encode(fs).len() - 4)),
{
    lemma_auto_spec_u32_to_from_le_bytes();
    lemma_auto_spec_u16_to_from_le_bytes();
    let data = spec_encode(fs);
    let body = body_bytes(fs);
    assert(data.take(8) =~= magic());
    assert(data.take(data.len() - 4) =~= body);
    assert(data.subrange(data.len() - 4, data.len() as int) =~= spec_u32_to_le_bytes(crc32(body)));
}

} // verus!
