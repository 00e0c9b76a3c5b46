//! Builds small interface-file images in memory and checks that loading
//! decodes them: signature and header validation, partition row
//! normalization, and string lookup.

use ifcgen::ifc::Ifc;
use ifcgen::rows::convert_record_data;

pub struct ImgBuilder {
    strings: Vec<u8>,
    parts: Vec<(u32, u32, u32, Vec<u8>)>,
    pub global_scope: u32,
}

impl ImgBuilder {
    pub fn new() -> ImgBuilder {
        ImgBuilder { strings: vec![0], parts: Vec::new(), global_scope: 0 }
    }

    pub fn intern(&mut self, s: &str) -> u32 {
        let off = self.strings.len() as u32;
        self.strings.extend_from_slice(s.as_bytes());
        self.strings.push(0);
        off
    }

    pub fn part(&mut self, name: &str, entity_size: u32, data: Vec<u8>) {
        let name_off = self.intern(name);
        assert!(data.len() % entity_size as usize == 0);
        let cardinality = (data.len() / entity_size as usize) as u32;
        self.parts.push((name_off, cardinality, entity_size, data));
    }

    pub fn build(&self) -> Vec<u8> {
        let mut img: Vec<u8> = vec![0x54, 0x51, 0x45, 0x1A];
        img.extend_from_slice(&[0u8; 72]);
        let strings_at = img.len() as u32;
        img.extend_from_slice(&self.strings);
        let mut placed: Vec<(u32, u32, u32, u32)> = Vec::new();
        for (name_off, card, size, data) in &self.parts {
            let at = img.len() as u32;
            img.extend_from_slice(data);
            placed.push((*name_off, at, *card, *size));
        }
        let toc_at = img.len() as u32;
        for (name_off, at, card, size) in &placed {
            img.extend_from_slice(&name_off.to_le_bytes());
            img.extend_from_slice(&at.to_le_bytes());
            img.extend_from_slice(&card.to_le_bytes());
            img.extend_from_slice(&size.to_le_bytes());
        }
        // header fields, at their offsets past the 4-byte signature
        let put = |img: &mut Vec<u8>, off: usize, v: u32| {
            img[4 + off..4 + off + 4].copy_from_slice(&v.to_le_bytes());
        };
        put(&mut img, 40, strings_at);
        put(&mut img, 44, self.strings.len() as u32);
        put(&mut img, 56, self.global_scope);
        put(&mut img, 60, toc_at);
        put(&mut img, 64, placed.len() as u32);
        img
    }
}

pub fn u32s(vals: &[u32]) -> Vec<u8> {
    let mut out = Vec::new();
    for v in vals {
        out.extend_from_slice(&v.to_le_bytes());
    }
    out
}

#[test]
fn load_rejects_bad_signature() {
    let b = ImgBuilder::new();
    let mut img = b.build();
    img[0] = 0x00;
    assert!(Ifc::load(img).is_err());
}

#[test]
fn load_rejects_truncated_file() {
    assert!(Ifc::load(vec![0x54, 0x51, 0x45, 0x1A]).is_err());
}

#[test]
fn load_accepts_empty_module() {
    let b = ImgBuilder::new();
    let ifc = Ifc::load(b.build()).expect("an empty module should load");
    assert_eq!(ifc.parts().len(), 0);
}

#[test]
fn load_reads_strings_and_partitions() {
    let mut b = ImgBuilder::new();
    let hello = b.intern("hello");
    b.part("heap.type", 4, u32s(&[7, 9]));
    let ifc = Ifc::load(b.build()).expect("module should load");
    assert_eq!(ifc.get_string(hello).unwrap(), "hello");
    assert_eq!(ifc.heap_type().entries.len(), 2);
    assert_eq!(ifc.heap_type().entry(0).unwrap().0, 7);
    assert_eq!(ifc.heap_type().entry(1).unwrap().0, 9);
    assert!(ifc.heap_type().entry(2).is_err());
    assert_eq!(ifc.parts().len(), 1);
}

#[test]
fn load_rejects_partition_outside_file() {
    let mut b = ImgBuilder::new();
    b.part("heap.type", 4, u32s(&[7]));
    let mut img = b.build();
    // grow the partition's recorded cardinality beyond the file
    let toc_at = u32::from_le_bytes([img[64], img[65], img[66], img[67]]) as usize;
    img[toc_at + 8..toc_at + 12].copy_from_slice(&1000u32.to_le_bytes());
    assert!(Ifc::load(img).is_err());
}

#[test]
fn short_rows_are_zero_extended() {
    // a 3-row partition with 4-byte on-disk rows and an 8-byte expected row:
    // each result row starts with the input bytes and ends with zeros
    let data: Vec<u8> = vec![1, 2, 3, 4, 5, 6, 7, 8, 9, 10, 11, 12];
    let rows = convert_record_data(&data, 3, 4, 8);
    assert_eq!(rows.len(), 3);
    assert_eq!(rows[0], vec![1, 2, 3, 4, 0, 0, 0, 0]);
    assert_eq!(rows[1], vec![5, 6, 7, 8, 0, 0, 0, 0]);
    assert_eq!(rows[2], vec![9, 10, 11, 12, 0, 0, 0, 0]);
}

#[test]
fn long_rows_are_truncated() {
    let data: Vec<u8> = vec![1, 2, 3, 4, 5, 6];
    let rows = convert_record_data(&data, 2, 3, 2);
    assert_eq!(rows, vec![vec![1, 2], vec![4, 5]]);
}

#[test]
fn equal_rows_are_copied() {
    let data: Vec<u8> = vec![1, 2, 3, 4];
    let rows = convert_record_data(&data, 2, 2, 2);
    assert_eq!(rows, vec![vec![1, 2], vec![3, 4]]);
}

#[test]
fn zero_extension_applies_to_loaded_partitions() {
    // scope descriptors are 8 bytes in memory; write them as 4-byte rows
    let mut b = ImgBuilder::new();
    b.part("scope.desc", 4, u32s(&[5, 6, 7]));
    let ifc = Ifc::load(b.build()).expect("module should load");
    let sd = ifc.scope_desc();
    assert_eq!(sd.entries.len(), 3);
    assert_eq!(sd.entry(0).unwrap().start, 5);
    assert_eq!(sd.entry(0).unwrap().cardinality, 0);
    assert_eq!(sd.entry(2).unwrap().start, 7);
    assert_eq!(sd.entry(2).unwrap().cardinality, 0);
}
