//! The loaded container: raw bytes, the parsed file header, the string
//! table range, and every recognized partition decoded into typed rows.
//!
//! Loading validates the 4-byte signature, the header, the string-table
//! range, and every table-of-contents entry; any structural fault fails the
//! whole load, since nothing decoded after it could be trusted.

use vstd::prelude::*;
use vstd::slice::{slice_subrange, slice_to_vec};
use crate::bytes::{spec_u32_at, u8_at, u32_at};
use crate::error::Error;
use crate::parts::{Parts, PartsView, spec_parts_empty, spec_load_one};
use crate::records::{PartitionSummary, ScopeDescriptor, Version, Abi, LanguageVersion,
    ByteOffset, Cardinality, TextOffset, UnitIndex, ScopeIndex};
use crate::index::{DeclIndex, TypeIndex};
use crate::strings::{spec_string_at, string_at};

verus! {

/// Content hash of the producing front end, carried but never checked here.
#[derive(Clone, Debug)]
pub struct Sha256 {
    pub bytes: Vec<u8>,
}

/// The value stored in a one-byte truth flag.
pub type Bool = u8;

/// Fixed-layout header that follows the 4-byte signature.
#[derive(Clone, Debug)]
pub struct FileHeader {
    pub checksum: Sha256,
    pub major_version: Version,
    pub minor_version: Version,
    pub abi: Abi,
    pub arch: u8,
    pub dialect: LanguageVersion,
    pub string_table_bytes: ByteOffset,
    pub string_table_size: Cardinality,
    pub unit: UnitIndex,
    pub src_path: TextOffset,
    pub global_scope: ScopeIndex,
    pub toc: ByteOffset,
    pub partition_count: Cardinality,
    pub internal: Bool,
}

impl FileHeader {
    /// Decodes the 72 header bytes that follow the signature.
    pub fn decode(b: &[u8]) -> (r: FileHeader)
        requires
            b@.len() == 72,
        ensures
            r.checksum.bytes@ == b@.subrange(0, 32),
            r.major_version == b@[32],
            r.minor_version == b@[33],
            r.abi == b@[34],
            r.arch == b@[35],
            r.dialect == spec_u32_at(b@, 36),
            r.string_table_bytes == spec_u32_at(b@, 40),
            r.string_table_size == spec_u32_at(b@, 44),
            r.unit == spec_u32_at(b@, 48),
            r.src_path == spec_u32_at(b@, 52),
            r.global_scope == spec_u32_at(b@, 56),
            r.toc == spec_u32_at(b@, 60),
            r.partition_count == spec_u32_at(b@, 64),
            r.internal == b@[68],
    {
        FileHeader {
            checksum: Sha256 { bytes: slice_to_vec(slice_subrange(b, 0, 32)) },
            major_version: u8_at(b, 32),
            minor_version: u8_at(b, 33),
            abi: u8_at(b, 34),
            arch: u8_at(b, 35),
            dialect: u32_at(b, 36),
            string_table_bytes: u32_at(b, 40),
            string_table_size: u32_at(b, 44),
            unit: u32_at(b, 48),
            src_path: u32_at(b, 52),
            global_scope: u32_at(b, 56),
            toc: u32_at(b, 60),
            partition_count: u32_at(b, 64),
            internal: u8_at(b, 68),
        }
    }
}

/// Where a named partition's image lies in the file.
#[derive(Clone, Debug)]
pub struct PartEntry {
    pub part_start: usize,
    pub part_end: usize,
    pub count: usize,
    pub size: usize,
}

/// Whether the file starts with the interface signature and holds a full
/// header.
pub open spec fn spec_sig_ok(data: Seq<u8>) -> bool {
    &&& data.len() >= 76
    &&& data[0] == 0x54
    &&& data[1] == 0x51
    &&& data[2] == 0x45
    &&& data[3] == 0x1A
}

/// First byte of the string table.
pub open spec fn spec_strings_start(data: Seq<u8>) -> int {
    spec_u32_at(data, 44) as int
}

/// Length in bytes of the string table.
pub open spec fn spec_strings_len(data: Seq<u8>) -> int {
    spec_u32_at(data, 48) as int
}

/// Signature, full header, and a string-table range inside the file.
pub open spec fn spec_header_ok(data: Seq<u8>) -> bool {
    &&& spec_sig_ok(data)
    &&& spec_strings_start(data) + spec_strings_len(data) <= data.len()
}

/// The string-table bytes of the file.
pub open spec fn spec_strings_of(data: Seq<u8>) -> Seq<u8> {
    data.subrange(spec_strings_start(data), spec_strings_start(data) + spec_strings_len(data))
}

/// Byte offset of the table of contents.
pub open spec fn spec_toc(data: Seq<u8>) -> int {
    spec_u32_at(data, 64) as int
}

/// Number of partitions the table of contents declares.
pub open spec fn spec_partition_count(data: Seq<u8>) -> int {
    spec_u32_at(data, 68) as int
}

/// The `i`-th table-of-contents record.
pub open spec fn spec_summary(data: Seq<u8>, i: int) -> PartitionSummary {
    PartitionSummary::spec_decode(
        data.subrange(spec_toc(data) + 16 * i, spec_toc(data) + 16 * i + 16))
}

/// The byte image of the `i`-th partition.
pub open spec fn spec_part_image(data: Seq<u8>, i: int) -> Seq<u8> {
    let s = spec_summary(data, i);
    data.subrange(s.offset as int,
        s.offset + s.cardinality * s.entity_size)
}

/// Whether the `i`-th table-of-contents entry is structurally sound: the
/// record lies inside the file, its name resolves in the string table, and
/// its byte range lies inside the file.
pub open spec fn spec_toc_entry_ok(data: Seq<u8>, i: int) -> bool {
    let s = spec_summary(data, i);
    &&& spec_toc(data) + 16 * i + 16 <= data.len()
    &&& spec_string_at(spec_strings_of(data), s.name as int) is Some
    &&& s.offset + s.cardinality * s.entity_size <= data.len()
}

/// The partition contents after the first `n` table-of-contents entries
/// were loaded in order.
pub open spec fn spec_parts_after(data: Seq<u8>, n: int) -> PartsView
    decreases n,
{
    if n <= 0 {
        spec_parts_empty()
    } else {
        let s = spec_summary(data, n - 1);
        spec_load_one(
            spec_parts_after(data, n - 1),
            spec_string_at(spec_strings_of(data), s.name as int).unwrap(),
            spec_part_image(data, n - 1),
            s.cardinality as nat,
            s.entity_size as nat,
        )
    }
}

/// Exactly the byte images that load: sound signature, header and string
/// range, and every table-of-contents entry structurally sound.
pub open spec fn spec_load_ok(data: Seq<u8>) -> bool {
    &&& spec_header_ok(data)
    &&& forall|i: int| 0 <= i < spec_partition_count(data) ==> spec_toc_entry_ok(data, i)
}

/// One loaded interface file.
pub struct Ifc {
    pub data: Vec<u8>,
    pub file_header: FileHeader,
    pub strings_start: usize,
    pub strings_end: usize,
    pub parts_list: Vec<(String, PartEntry)>,
    pub parts: Parts,
}

impl Ifc {
    /// The container faithfully describes its byte image.
    pub open spec fn wf(self) -> bool {
        &&& spec_header_ok(self.data@)
        &&& self.strings_start == spec_strings_start(self.data@)
        &&& self.strings_end == spec_strings_start(self.data@) + spec_strings_len(self.data@)
        &&& self.file_header.string_table_bytes == spec_u32_at(self.data@, 44)
        &&& self.file_header.string_table_size == spec_u32_at(self.data@, 48)
        &&& self.file_header.global_scope == spec_u32_at(self.data@, 60)
        &&& self.file_header.toc == spec_u32_at(self.data@, 64)
        &&& self.file_header.partition_count == spec_u32_at(self.data@, 68)
        &&& self.parts@ == spec_parts_after(self.data@, spec_partition_count(self.data@))
    }

    /// The string-table bytes of this container.
    pub open spec fn spec_strings(self) -> Seq<u8> {
        spec_strings_of(self.data@)
    }

    /// Decodes a whole interface file image.
    ///
    /// Succeeds exactly when the signature, header, string-table range and
    /// every table-of-contents entry are structurally sound; every
    /// recognized partition is then decoded, with short rows zero-extended
    /// and long rows truncated.
    pub fn load(data: Vec<u8>) -> (r: Result<Ifc, Error>)
        ensures
            r is Ok <==> spec_load_ok(data@),
            r matches Ok(ifc) ==> {
                &&& ifc.wf()
                &&& ifc.data@ == data@
                &&& ifc.parts@ == spec_parts_after(data@, spec_partition_count(data@))
                &&& ifc.parts_list@.len() == spec_partition_count(data@)
                &&& forall|i: int| 0 <= i < spec_partition_count(data@)
                    ==> (#[trigger] ifc.parts_list@[i]).0@ == spec_string_at(
                            spec_strings_of(data@), spec_summary(data@, i).name as int).unwrap()
                        && ifc.parts_list@[i].1.count == spec_summary(data@, i).cardinality
                        && ifc.parts_list@[i].1.size == spec_summary(data@, i).entity_size
            },
    {
        let n = data.len();
        if n < 76 {
            return Err(Error::bad("file is too small to hold an interface header"));
        }
        let fs = data.as_slice();
        if !(u8_at(fs, 0) == 0x54 && u8_at(fs, 1) == 0x51 && u8_at(fs, 2) == 0x45
            && u8_at(fs, 3) == 0x1A) {
            return Err(Error::bad("file does not have the interface signature"));
        }
        let file_header = FileHeader::decode(slice_subrange(fs, 4, 76));
        proof {
            let d = data@;
            assert(d.subrange(4, 76).subrange(40, 44) =~= d.subrange(44, 48));
            assert(d.subrange(4, 76).subrange(44, 48) =~= d.subrange(48, 52));
            assert(d.subrange(4, 76).subrange(56, 60) =~= d.subrange(60, 64));
            assert(d.subrange(4, 76).subrange(60, 64) =~= d.subrange(64, 68));
            assert(d.subrange(4, 76).subrange(64, 68) =~= d.subrange(68, 72));
        }
        let strings_start_64: u64 = file_header.string_table_bytes as u64;
        let strings_end_64: u64 = strings_start_64 + file_header.string_table_size as u64;
        if strings_end_64 > n as u64 {
            return Err(Error::bad("string table range is not valid"));
        }
        let strings_start: usize = file_header.string_table_bytes as usize;
        let strings_end: usize = strings_start + file_header.string_table_size as usize;

        let mut parts = Parts::new();
        let mut parts_list: Vec<(String, PartEntry)> = Vec::new();
        let num_partitions: u32 = file_header.partition_count;
        let mut i: u32 = 0;
        while i < num_partitions
            invariant
                i <= num_partitions,
                n == data@.len(),
                76 <= n <= usize::MAX,
                spec_header_ok(data@),
                num_partitions == spec_partition_count(data@),
                strings_start == spec_strings_start(data@),
                strings_end == spec_strings_start(data@) + spec_strings_len(data@),
                file_header.toc == spec_u32_at(data@, 64),
                parts@ == spec_parts_after(data@, i as int),
                forall|j: int| 0 <= j < i ==> spec_toc_entry_ok(data@, j),
                parts_list@.len() == i,
                forall|j: int| 0 <= j < i
                    ==> (#[trigger] parts_list@[j]).0@ == spec_string_at(
                            spec_strings_of(data@), spec_summary(data@, j).name as int).unwrap()
                        && parts_list@[j].1.count == spec_summary(data@, j).cardinality
                        && parts_list@[j].1.size == spec_summary(data@, j).entity_size,
            decreases num_partitions - i,
        {
            let toc_off_64: u64 = file_header.toc as u64 + (i as u64) * 16;
            if toc_off_64 + 16 > n as u64 {
                proof {
                    assert(!spec_toc_entry_ok(data@, i as int));
                }
                return Err(Error::bad("table of contents entry lies outside the file"));
            }
            let toc_off: usize = toc_off_64 as usize;
            let fs = data.as_slice();
            let summary = PartitionSummary::decode(slice_subrange(fs, toc_off, toc_off + 16));
            proof {
                assert(summary == spec_summary(data@, i as int));
            }
            let strings_slice = slice_subrange(fs, strings_start, strings_end);
            let partition_name = match string_at(strings_slice, summary.name) {
                Ok(s) => s,
                Err(e) => {
                    proof {
                        assert(!spec_toc_entry_ok(data@, i as int));
                    }
                    return Err(Error::bad("partition name is not in the string table"));
                },
            };
            proof {
                assert((summary.cardinality as int) * (summary.entity_size as int)
                    <= 0xffff_fffe_0000_0001int) by (nonlinear_arith)
                    requires
                        summary.cardinality <= 0xffff_ffffu32,
                        summary.entity_size <= 0xffff_ffffu32;
            }
            let part_len_64: u64 = (summary.cardinality as u64) * (summary.entity_size as u64);
            let part_end_64: u64 = summary.offset as u64 + part_len_64;
            if part_end_64 > n as u64 {
                proof {
                    assert(!spec_toc_entry_ok(data@, i as int));
                }
                return Err(Error::bad("partition range lies outside the file"));
            }
            let part_start: usize = summary.offset as usize;
            let part_end: usize = part_end_64 as usize;
            let num: usize = summary.cardinality as usize;
            let rsize: usize = summary.entity_size as usize;
            proof {
                assert(part_end - part_start == num * rsize) by (nonlinear_arith)
                    requires
                        part_start == summary.offset as int,
                        part_end == summary.offset + summary.cardinality * summary.entity_size,
                        num == summary.cardinality as int,
                        rsize == summary.entity_size as int;
            }
            let part_name_owned: String = partition_name.to_owned();
            let part_data = slice_subrange(fs, part_start, part_end);
            parts.load_part_data(partition_name, part_data, num, rsize);
            parts_list.push((part_name_owned, PartEntry {
                part_start,
                part_end,
                count: num,
                size: rsize,
            }));
            i += 1;
            proof {
                assert(parts@ == spec_parts_after(data@, i as int));
            }
        }

        Ok(Ifc {
            data,
            file_header,
            strings_start,
            strings_end,
            parts_list,
            parts,
        })
    }

    /// The root scope of the module, one-based.
    pub fn global_scope(&self) -> (r: ScopeIndex)
        requires
            self.file_header.global_scope > 0,
        ensures
            r == self.file_header.global_scope,
    {
        self.file_header.global_scope
    }

    /// The parsed file header.
    pub fn file_header(&self) -> (r: &FileHeader)
        ensures
            r == &self.file_header,
    {
        &self.file_header
    }

    /// Name and location of every partition the table of contents declared.
    pub fn parts(&self) -> (r: &Vec<(String, PartEntry)>)
        ensures
            r == &self.parts_list,
    {
        &self.parts_list
    }

    /// Looks up the NUL-terminated string at a string-table offset.
    pub fn get_string(&self, text_offset: TextOffset) -> (r: Result<&str, Error>)
        requires
            self.wf(),
        ensures
            r matches Ok(s) ==> spec_string_at(self.spec_strings(), text_offset as int)
                == Some(s@),
            r is Err ==> spec_string_at(self.spec_strings(), text_offset as int) is None,
    {
        let fs = data_slice(&self.data);
        string_at(slice_subrange(fs, self.strings_start, self.strings_end), text_offset)
    }
}

/// The byte image of the container.
fn data_slice(v: &Vec<u8>) -> (r: &[u8])
    ensures
        r@ == v@,
{
    v.as_slice()
}

} // verus!
