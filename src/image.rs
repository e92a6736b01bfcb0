//! The PE image: the envelope that goblin parses, the CLI header, and the
//! metadata root that the header points to.
use vstd::prelude::*;
use vstd::slice::slice_subrange;
use crate::bytes::{le16, le32, le64, read_u16, read_u32, read_u64};
use crate::cil::{body_at, Instruction, MethodBody};
use crate::error::Error;
use crate::metadata::{
    root_at, stream_bytes, stream_error, stream_heap_refs_ok, stream_table_refs_ok, view_heap_sizes,
    MetadataRoot,
};
use crate::tables::MethodDef;
use crate::token::{token_of, MetadataToken};

verus! {

/// The machine type of managed-code images.
pub const MACHINE_I386: u16 = 0x14C;

/// The width of the CLI header.
pub const CLI_HEADER_SIZE: usize = 72;

/// An address and size in the loaded image.
#[derive(Debug, Clone, Copy, PartialEq, Eq, Structural)]
pub struct DataDirectory {
    pub virtual_address: u32,
    pub size: u32,
}

/// The fields of a PE section header that map addresses to file offsets.
#[derive(Debug, Clone, Copy, PartialEq, Eq, Structural)]
pub struct PeSection {
    pub virtual_address: u32,
    pub virtual_size: u32,
    pub size_of_raw_data: u32,
    pub pointer_to_raw_data: u32,
}

/// What the PE envelope tells about an image: its machine, the file
/// alignment and sections that map addresses to file offsets, and the
/// CLI-runtime data directory.
pub struct PeLayout {
    pub machine: u16,
    pub file_alignment: u32,
    pub clr: Option<DataDirectory>,
    pub sections: Vec<PeSection>,
}

/// The value of a `PeLayout`.
pub struct PeLayoutView {
    pub machine: u16,
    pub file_alignment: u32,
    pub clr: Option<DataDirectory>,
    pub sections: Seq<PeSection>,
}

/// The envelope that goblin reads from the bytes of an image; none when it
/// rejects them or the image has no optional header.
pub uninterp spec fn pe_layout_of(bytes: Seq<u8>) -> Option<PeLayoutView>;

/// The file offset that goblin maps a relative virtual address to, through
/// the sections and the file alignment; none outside every section.
pub uninterp spec fn rva_offset_of(sections: Seq<PeSection>, file_alignment: u32, rva: u32) -> Option<usize>;

/// Relies on goblin::pe::PE::parse to read the PE envelope, and on the
/// optional header's `get_clr_runtime_header`; the result depends on the
/// bytes alone.
#[verifier::external_body]
fn parse_pe(bytes: &[u8]) -> (r: Option<PeLayout>)
    ensures
        match pe_layout_of(bytes@) {
            None => r is None,
            Some(v) => r matches Some(l) && l.machine == v.machine && l.file_alignment
                == v.file_alignment && l.clr == v.clr && l.sections@ == v.sections,
        },
{
    let pe = goblin::pe::PE::parse(bytes).ok()?;
    let oh = pe.header.optional_header?;
    Some(PeLayout {
        machine: pe.header.coff_header.machine,
        file_alignment: oh.windows_fields.file_alignment,
        clr: oh.data_directories.get_clr_runtime_header().map(
            |d| DataDirectory { virtual_address: d.virtual_address, size: d.size },
        ),
        sections: pe.sections.iter().map(|t| PeSection {
            virtual_address: t.virtual_address,
            virtual_size: t.virtual_size,
            size_of_raw_data: t.size_of_raw_data,
            pointer_to_raw_data: t.pointer_to_raw_data,
        }).collect(),
    })
}

/// Relies on goblin::pe::utils::find_offset, with goblin's default options,
/// to map a relative virtual address to a file offset; it reads only these
/// four fields of each section header.
#[verifier::external_body]
fn rva_to_offset(sections: &Vec<PeSection>, file_alignment: u32, rva: u32) -> (r: Option<usize>)
    ensures
        r == rva_offset_of(sections@, file_alignment, rva),
{
    let tables: Vec<goblin::pe::section_table::SectionTable> = sections.iter().map(
        |s| goblin::pe::section_table::SectionTable {
            virtual_address: s.virtual_address,
            virtual_size: s.virtual_size,
            size_of_raw_data: s.size_of_raw_data,
            pointer_to_raw_data: s.pointer_to_raw_data,
            ..Default::default()
        },
    ).collect();
    goblin::pe::utils::find_offset(rva as usize, &tables, file_alignment, &goblin::pe::options::ParseOptions::default())
}

/// Where the envelope places the CLI header and the metadata root: the file
/// offset of the header, the header, and the file offset of the root.
pub open spec fn image_layout(bytes: Seq<u8>) -> Result<(usize, CliHeader, usize), Error> {
    match pe_layout_of(bytes) {
        None => Err(Error::MalformedImage),
        Some(l) => if l.machine != MACHINE_I386 {
            Err(Error::MalformedImage)
        } else {
            match l.clr {
                None => Err(Error::MalformedImage),
                Some(d) => match rva_offset_of(l.sections, l.file_alignment, d.virtual_address) {
                    None => Err(Error::MalformedImage),
                    Some(co) => match cli_header_at(bytes, co) {
                        Err(e) => Err(e),
                        Ok(h) => match rva_offset_of(
                            l.sections,
                            l.file_alignment,
                            h.metadata.virtual_address,
                        ) {
                            None => Err(Error::MalformedImage),
                            Some(mo) => if mo + h.metadata.size > bytes.len() {
                                Err(Error::MalformedImage)
                            } else {
                                Ok((co, h, mo))
                            },
                        },
                    },
                },
            }
        },
    }
}

/// The CLI header of a managed image.
#[derive(Debug, Clone, Copy, PartialEq, Eq, Structural)]
pub struct CliHeader {
    pub cb: u32,
    pub major_version: u16,
    pub minor_version: u16,
    pub metadata: DataDirectory,
    pub flags: u32,
    pub entry_point_token: MetadataToken,
    pub resources: DataDirectory,
    pub strong_name_signature_hash: DataDirectory,
    pub code_manager_table: u64,
    pub vtable_fixups: DataDirectory,
    pub export_address_table_jumps: u64,
    pub managed_native_header: u64,
}

pub open spec fn dir_at(s: Seq<u8>, p: int) -> DataDirectory {
    DataDirectory { virtual_address: le32(s, p) as u32, size: le32(s, p + 4) as u32 }
}

/// The CLI header read at `p`.
pub open spec fn cli_header_at(s: Seq<u8>, p: usize) -> Result<CliHeader, Error> {
    if p + CLI_HEADER_SIZE > s.len() {
        Err(Error::BadInput)
    } else {
        match token_of(le32(s, p + 20) as u32) {
            Some(t) => Ok(
                CliHeader {
                    cb: le32(s, p as int) as u32,
                    major_version: le16(s, p + 4) as u16,
                    minor_version: le16(s, p + 6) as u16,
                    metadata: dir_at(s, p + 8),
                    flags: le32(s, p + 16) as u32,
                    entry_point_token: t,
                    resources: dir_at(s, p + 24),
                    strong_name_signature_hash: dir_at(s, p + 32),
                    code_manager_table: le64(s, p + 40) as u64,
                    vtable_fixups: dir_at(s, p + 48),
                    export_address_table_jumps: le64(s, p + 56) as u64,
                    managed_native_header: le64(s, p + 64) as u64,
                },
            ),
            None => Err(Error::BadToken),
        }
    }
}

fn dir_exec(s: &[u8], p: usize) -> (r: DataDirectory)
    requires
        p + 8 <= s@.len(),
    ensures
        r == dir_at(s@, p as int),
{
    let n = s.len();
    assert(p + 8 <= n);
    DataDirectory { virtual_address: read_u32(s, p).unwrap(), size: read_u32(s, p + 4).unwrap() }
}

impl CliHeader {
    /// Reads the CLI header at `p`.
    pub fn parse(s: &[u8], p: usize) -> (r: Result<CliHeader, Error>)
        ensures
            r == cli_header_at(s@, p),
    {
        let n = s.len();
        if p > n || n - p < CLI_HEADER_SIZE {
            return Err(Error::BadInput);
        }
        let entry_point_token = MetadataToken::decode(read_u32(s, p + 20).unwrap())?;
        Ok(CliHeader {
            cb: read_u32(s, p).unwrap(),
            major_version: read_u16(s, p + 4).unwrap(),
            minor_version: read_u16(s, p + 6).unwrap(),
            metadata: dir_exec(s, p + 8),
            flags: read_u32(s, p + 16).unwrap(),
            entry_point_token,
            resources: dir_exec(s, p + 24),
            strong_name_signature_hash: dir_exec(s, p + 32),
            code_manager_table: read_u64(s, p + 40).unwrap(),
            vtable_fixups: dir_exec(s, p + 48),
            export_address_table_jumps: read_u64(s, p + 56).unwrap(),
            managed_native_header: read_u64(s, p + 64).unwrap(),
        })
    }
}

/// A managed-code PE image: its bytes, its CLI header and its metadata root.
pub struct Image<'a> {
    bytes: &'a [u8],
    cli_header: CliHeader,
    cli_offset: usize,
    metadata_root: MetadataRoot<'a>,
    metadata_offset: usize,
    sections: Vec<PeSection>,
    file_alignment: u32,
}

impl<'a> Image<'a> {
    pub closed spec fn spec_bytes(&self) -> Seq<u8> {
        self.bytes@
    }

    pub closed spec fn spec_cli_header(&self) -> CliHeader {
        self.cli_header
    }

    /// The file offset of the CLI header.
    pub closed spec fn spec_cli_offset(&self) -> usize {
        self.cli_offset
    }

    /// The file offset of the metadata root.
    pub closed spec fn spec_metadata_offset(&self) -> usize {
        self.metadata_offset
    }

    pub closed spec fn spec_metadata_root(&self) -> &MetadataRoot<'a> {
        &self.metadata_root
    }

    /// The sections that map addresses to file offsets.
    pub closed spec fn spec_sections(&self) -> Seq<PeSection> {
        self.sections@
    }

    pub closed spec fn spec_file_alignment(&self) -> u32 {
        self.file_alignment
    }

    /// The bytes of the metadata root, as the CLI header delimits them.
    pub open spec fn metadata_bytes(&self) -> Seq<u8> {
        self.spec_bytes().subrange(
            self.spec_metadata_offset() as int,
            self.spec_metadata_offset() + self.spec_cli_header().metadata.size,
        )
    }

    /// Reads an image: goblin parses the PE envelope and maps addresses to
    /// file offsets; the machine must be the managed-code one and the CLI
    /// directory must be present; then the CLI header and the metadata root
    /// that it points to are decoded.
    pub fn from_bytes(bytes: &'a [u8]) -> (r: Result<Image<'a>, Error>)
        ensures
            match image_layout(bytes@) {
                Err(e) => r == Err::<Image, Error>(e),
                Ok((co, h, mo)) => {
                    let rb = bytes@.subrange(mo as int, mo + h.metadata.size);
                    match root_at(rb) {
                        Err(e) => r == Err::<Image, Error>(e),
                        Ok(v) => match stream_error(stream_bytes(rb, v.dirs.tables)) {
                            Some(e) => r == Err::<Image, Error>(e),
                            None => {
                                let tb = stream_bytes(rb, v.dirs.tables);
                                &&& (r is Ok <==> stream_table_refs_ok(tb) && stream_heap_refs_ok(
                                    tb,
                                    view_heap_sizes(rb, v),
                                ))
                                &&& (r is Err ==> r == Err::<Image, Error>(Error::BadIndex) || r
                                    == Err::<Image, Error>(Error::HeapDecodeError))
                                &&& (r matches Ok(img) ==> {
                                    &&& img.spec_bytes() == bytes@
                                    &&& img.spec_cli_offset() == co
                                    &&& img.spec_cli_header() == h
                                    &&& img.spec_metadata_offset() == mo
                                    &&& img.metadata_bytes() == rb
                                    &&& img.spec_metadata_root().matches_view(rb, v)
                                    &&& img.spec_metadata_root().refs_in_range()
                                    &&& img.spec_sections() == pe_layout_of(bytes@)->0.sections
                                    &&& img.spec_file_alignment() == pe_layout_of(
                                        bytes@,
                                    )->0.file_alignment
                                })
                            },
                        },
                    }
                },
            },
    {
        let layout = match parse_pe(bytes) {
            Some(l) => l,
            None => return Err(Error::MalformedImage),
        };
        if layout.machine != MACHINE_I386 {
            return Err(Error::MalformedImage);
        }
        let clr = match layout.clr {
            Some(d) => d,
            None => return Err(Error::MalformedImage),
        };
        let cli_offset = match rva_to_offset(&layout.sections, layout.file_alignment, clr.virtual_address) {
            Some(o) => o,
            None => return Err(Error::MalformedImage),
        };
        let cli_header = CliHeader::parse(bytes, cli_offset)?;
        let metadata_offset = match rva_to_offset(
            &layout.sections,
            layout.file_alignment,
            cli_header.metadata.virtual_address,
        ) {
            Some(o) => o,
            None => return Err(Error::MalformedImage),
        };
        let n = bytes.len();
        if metadata_offset > n || (cli_header.metadata.size as usize) > n - metadata_offset {
            return Err(Error::MalformedImage);
        }
        let root_bytes = slice_subrange(
            bytes,
            metadata_offset,
            metadata_offset + cli_header.metadata.size as usize,
        );
        let metadata_root = MetadataRoot::parse(root_bytes)?;
        Ok(Image {
            bytes,
            cli_header,
            cli_offset,
            metadata_root,
            metadata_offset,
            sections: layout.sections,
            file_alignment: layout.file_alignment,
        })
    }

    pub fn bytes(&self) -> (r: &'a [u8])
        ensures
            r@ == self.spec_bytes(),
    {
        self.bytes
    }

    pub fn cli_header(&self) -> (r: &CliHeader)
        ensures
            *r == self.spec_cli_header(),
    {
        &self.cli_header
    }

    pub fn metadata_root(&self) -> (r: &MetadataRoot<'a>)
        ensures
            r == self.spec_metadata_root(),
    {
        &self.metadata_root
    }

    /// The file offset of a relative virtual address, through the sections.
    pub fn get_data(&self, rva: u32) -> (r: Result<usize, Error>)
        ensures
            r == (match rva_offset_of(self.spec_sections(), self.spec_file_alignment(), rva) {
                Some(o) => Ok(o),
                None => Err(Error::MalformedImage),
            }),
    {
        match rva_to_offset(&self.sections, self.file_alignment, rva) {
            Some(o) => Ok(o),
            None => Err(Error::MalformedImage),
        }
    }
}

impl MethodDef {
    /// Decodes this method's body, which its RVA locates in the image.
    pub fn resolve_body(self, image: &Image) -> (r: Result<MethodBody, Error>)
        ensures
            match rva_offset_of(image.spec_sections(), image.spec_file_alignment(), self.rva) {
                None => r == Err::<MethodBody, Error>(Error::MalformedImage),
                Some(o) => match r {
                    Ok(b) => body_at(image.spec_bytes(), o) == Ok::<Seq<Instruction>, Error>(
                        b.instructions@,
                    ),
                    Err(e) => body_at(image.spec_bytes(), o) == Err::<Seq<Instruction>, Error>(e),
                },
            },
    {
        let offset = image.get_data(self.rva)?;
        MethodBody::parse(image.bytes(), offset)
    }
}

} // verus!
