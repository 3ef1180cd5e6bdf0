//! The parameter files that the login server sends every client: a header
//! naming each file with its size, checksum and offset, and the files'
//! contents one after another, cut into chunks of 0x6800 bytes.

use vstd::prelude::*;

verus! {

/// The names of the parameter files, in the order they are sent.
pub open spec fn param_file_names() -> Seq<Seq<char>> {
    seq![
        "ItemMagEdit.prs"@,
        "ItemPMT.prs"@,
        "BattleParamEntry.dat"@,
        "BattleParamEntry_on.dat"@,
        "BattleParamEntry_lab.dat"@,
        "BattleParamEntry_lab_on.dat"@,
        "BattleParamEntry_ep4.dat"@,
        "BattleParamEntry_ep4_on.dat"@,
        "PlyLevelTbl.prs"@,
    ]
}

/// The names of the parameter files, in the order they are sent.
pub fn param_file_list() -> (r: Vec<&'static str>)
    ensures
        r@.len() == 9,
        forall|i: int| 0 <= i < 9 ==> (#[trigger] r@[i])@ == param_file_names()[i],
{
    let r = vec![
        "ItemMagEdit.prs",
        "ItemPMT.prs",
        "BattleParamEntry.dat",
        "BattleParamEntry_on.dat",
        "BattleParamEntry_lab.dat",
        "BattleParamEntry_lab_on.dat",
        "BattleParamEntry_ep4.dat",
        "BattleParamEntry_ep4_on.dat",
        "PlyLevelTbl.prs",
    ];
    r
}

/// `v` after `k` steps of the reflected IEEE polynomial 0xEDB88320: each
/// shifts right by one and, where the bit shifted out was set, reduces.
pub open spec fn crc32_shift(v: u32, k: nat) -> u32
    decreases k,
{
    if k == 0 {
        v
    } else {
        let w = crc32_shift(v, (k - 1) as nat);
        if w & 1u32 == 1u32 {
            (w >> 1u32) ^ 0xEDB8_8320u32
        } else {
            w >> 1u32
        }
    }
}

/// The CRC-32 register after `data`, starting from all ones: each byte
/// is folded in through the entry (eight steps) of its index.
pub open spec fn crc32_reg(data: Seq<u8>) -> u32
    decreases data.len(),
{
    if data.len() == 0 {
        0xFFFF_FFFFu32
    } else {
        let v = crc32_reg(data.drop_last());
        crc32_shift(((v & 0xFFu32) ^ (data.last() as u32)), 8) ^ (v >> 8u32)
    }
}

/// The CRC-32 (IEEE) checksum of `data`: the register, inverted.
pub open spec fn crc32_ieee(data: Seq<u8>) -> u32 {
    !crc32_reg(data)
}

/// `crc`'s `crc32::checksum_ieee`: the IEEE CRC-32 of the bytes, which
/// the crate computes from a table of 256 entries, each eight steps of the
/// polynomial, starting from all ones and inverting at the end.
#[verifier::external_body]
pub(crate) fn checksum_ieee(data: &[u8]) -> (r: u32)
    ensures
        r == crc32_ieee(data@),
{
    crc::crc32::checksum_ieee(data)
}

/// The header entry of one parameter file.
#[derive(Clone, Debug)]
pub struct ParamHeader {
    pub size: u32,
    pub checksum: u32,
    pub offset: u32,
    pub filename: String,
}

/// One chunk of the files' contents.
#[derive(Clone, Debug)]
pub struct ParamChunk {
    pub chunk: u32,
    pub data: Vec<u8>,
}

/// The parameter files as sent: the header (with the number of files) and
/// the chunks.
#[derive(Clone, Debug)]
pub struct ParamFiles {
    pub count: u32,
    pub headers: Vec<ParamHeader>,
    pub chunks: Vec<ParamChunk>,
}

/// The size of a chunk.
pub const CHUNK_SIZE: usize = 0x6800;

/// The files' contents one after another.
pub open spec fn concat_files(files: Seq<(Seq<char>, Seq<u8>)>) -> Seq<u8>
    decreases files.len(),
{
    if files.len() == 0 {
        Seq::empty()
    } else {
        concat_files(files.drop_last()) + files.last().1
    }
}

/// The chunks of `data`: pieces of 0x6800 bytes while more than 0x6800
/// remain, then the rest (possibly empty) as the last chunk.
pub open spec fn chunks_of(data: Seq<u8>) -> Seq<Seq<u8>>
    decreases data.len(),
{
    if data.len() > 0x6800 {
        seq![data.take(0x6800)] + chunks_of(data.skip(0x6800))
    } else {
        seq![data]
    }
}

/// A file's name and contents as plain values.
pub open spec fn file_view(f: (String, Vec<u8>)) -> (Seq<char>, Seq<u8>) {
    (f.0@, f.1@)
}

/// Builds what the login server sends of the parameter files from their
/// names and contents: each file's header entry (its size and checksum;
/// the offset field stays 0), and the concatenated contents cut into
/// chunks numbered from zero. Counts and sizes are kept in 32 bits, as the
/// messages carry them.
pub fn build_param_files(files: Vec<(String, Vec<u8>)>) -> (r: ParamFiles)
    ensures
        r.count == files@.len() as u32,
        r.headers@.len() == files@.len(),
        forall|i: int|
            0 <= i < files@.len() ==> {
                let h = #[trigger] r.headers@[i];
                &&& h.size == files@[i].1@.len() as u32
                &&& h.checksum == crc32_ieee(files@[i].1@)
                &&& h.offset == 0
                &&& h.filename@ == files@[i].0@
            },
        r.chunks@.len() == chunks_of(concat_files(files@.map_values(|f: (String, Vec<u8>)| file_view(f)))).len(),
        forall|i: int|
            0 <= i < r.chunks@.len() ==> (#[trigger] r.chunks@[i]).chunk == i as u32 && r.chunks@[i].data@ == chunks_of(
                concat_files(files@.map_values(|f: (String, Vec<u8>)| file_view(f))),
            )[i],
{
    let ghost fv = files@.map_values(|f: (String, Vec<u8>)| file_view(f));
    let n = files.len();
    let mut headers: Vec<ParamHeader> = Vec::new();
    let mut buffer: Vec<u8> = Vec::new();
    let mut i: usize = 0;
    assert(fv.take(0) =~= Seq::<(Seq<char>, Seq<u8>)>::empty());
    while i < n
        invariant
            n == files@.len(),
            fv == files@.map_values(|f: (String, Vec<u8>)| file_view(f)),
            i <= n,
            buffer@ == concat_files(fv.take(i as int)),
            headers@.len() == i,
            forall|j: int|
                0 <= j < i ==> {
                    let h = #[trigger] headers@[j];
                    &&& h.size == files@[j].1@.len() as u32
                    &&& h.checksum == crc32_ieee(files@[j].1@)
                    &&& h.offset == 0
                    &&& h.filename@ == files@[j].0@
                },
        decreases n - i,
    {
        proof {
            assert(fv.take(i + 1).drop_last() =~= fv.take(i as int));
            assert(fv.take(i + 1).last() == fv[i as int]);
        }
        let data = &files[i].1;
        let checksum = checksum_ieee(data.as_slice());
        headers.push(ParamHeader {
            size: data.len() as u32,
            checksum,
            offset: 0,
            filename: files[i].0.clone(),
        });
        let ghost before = buffer@;
        let mut k: usize = 0;
        while k < data.len()
            invariant
                k <= data@.len(),
                buffer@ == before + data@.take(k as int),
            decreases data@.len() - k,
        {
            buffer.push(data[k]);
            assert(data@.take(k + 1) =~= data@.take(k as int).push(data@[k as int]));
            k = k + 1;
        }
        assert(data@.take(data@.len() as int) =~= data@);
        i = i + 1;
    }
    assert(fv.take(n as int) =~= fv);
    let ghost whole = buffer@;
    // Cut the contents into chunks.
    let mut chunks: Vec<ParamChunk> = Vec::new();
    let mut start: usize = 0;
    let len = buffer.len();
    assert(whole.skip(0) =~= whole);
    assert(chunks_view(chunks@) + chunks_of(whole.skip(0)) =~= chunks_of(whole));
    loop
        invariant_except_break
            len == buffer@.len(),
            buffer@ == whole,
            start <= len,
            start % 0x6800 == 0,
            chunks@.len() == start / 0x6800,
            chunks_of(whole) == chunks_view(chunks@) + chunks_of(whole.skip(start as int)),
            forall|j: int| 0 <= j < chunks@.len() ==> (#[trigger] chunks@[j]).chunk == j as u32,
        ensures
            chunks_of(whole) == chunks_view(chunks@),
            forall|j: int| 0 <= j < chunks@.len() ==> (#[trigger] chunks@[j]).chunk == j as u32,
        decreases len - start,
    {
        let remaining = len - start;
        let take = if remaining > CHUNK_SIZE { CHUNK_SIZE } else { remaining };
        let mut data: Vec<u8> = Vec::new();
        let mut k: usize = 0;
        while k < take
            invariant
                k <= take,
                start + take <= len,
                len == buffer@.len(),
                data@ == buffer@.subrange(start as int, start + k),
            decreases take - k,
        {
            data.push(buffer[start + k]);
            assert(buffer@.subrange(start as int, start + k + 1) =~= buffer@.subrange(start as int, start + k).push(buffer@[start + k]));
            k = k + 1;
        }
        let idx = (start / CHUNK_SIZE) as u32;
        let ghost prev = chunks@;
        chunks.push(ParamChunk { chunk: idx, data });
        proof {
            let rest = whole.skip(start as int);
            if remaining > CHUNK_SIZE {
                assert(rest.take(0x6800) =~= whole.subrange(start as int, start + 0x6800));
                assert(rest.skip(0x6800) =~= whole.skip(start + 0x6800));
                assert(chunks_view(chunks@) =~= chunks_view(prev) + seq![rest.take(0x6800)]);
                assert(chunks_of(whole) =~= chunks_view(chunks@) + chunks_of(whole.skip(start + 0x6800)));
            } else {
                assert(rest =~= whole.subrange(start as int, len as int));
                assert(chunks_view(chunks@) =~= chunks_view(prev) + seq![rest]);
                assert(chunks_of(whole) =~= chunks_view(chunks@));
            }
        }
        if remaining > CHUNK_SIZE {
            start = start + CHUNK_SIZE;
        } else {
            assert(chunks_of(whole) == chunks_view(chunks@));
            break;
        }
    }
    ParamFiles { count: n as u32, headers, chunks }
}

/// The contents of a list of chunks.
pub open spec fn chunks_view(cs: Seq<ParamChunk>) -> Seq<Seq<u8>> {
    cs.map_values(|c: ParamChunk| c.data@)
}

} // verus!
