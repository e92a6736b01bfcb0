use clrs::cil::MethodBody;
use clrs::compiler::WasmContext;
use clrs::phases::compile_metadata;
use clrs::error::Error;
use clrs::heap::UserStringIndex;
use clrs::indices::{MemberRefIndex, MethodDefIndex};
use clrs::lower::{lower_signature, StringCacheData};
use clrs::metadata::MetadataRoot;
use clrs::signatures::MethodDefSig;
use clrs::wasm::ValTy;

fn put16(v: &mut Vec<u8>, x: u16) {
    v.extend_from_slice(&x.to_le_bytes());
}

fn put32(v: &mut Vec<u8>, x: u32) {
    v.extend_from_slice(&x.to_le_bytes());
}

/// Heaps and table rows of a small assembly under construction.
struct Builder {
    strings: Vec<u8>,
    us: Vec<u8>,
    blob: Vec<u8>,
    /// (tag, row count, row bytes), in ascending tag order.
    tables: Vec<(u8, u32, Vec<u8>)>,
}

impl Builder {
    fn new() -> Builder {
        Builder { strings: vec![0], us: vec![0], blob: vec![0], tables: vec![] }
    }

    fn string(&mut self, s: &str) -> u16 {
        let at = self.strings.len() as u16;
        self.strings.extend_from_slice(s.as_bytes());
        self.strings.push(0);
        at
    }

    fn user_string(&mut self, s: &str) -> u32 {
        let at = self.us.len() as u32;
        self.us.push(s.len() as u8);
        self.us.extend_from_slice(s.as_bytes());
        at
    }

    fn blob(&mut self, b: &[u8]) -> u16 {
        let at = self.blob.len() as u16;
        self.blob.push(b.len() as u8);
        self.blob.extend_from_slice(b);
        at
    }

    fn table(&mut self, tag: u8, rows: Vec<Vec<u8>>) {
        let n = rows.len() as u32;
        self.tables.push((tag, n, rows.concat()));
        self.tables.sort_by_key(|t| t.0);
    }

    fn tables_stream(&self) -> Vec<u8> {
        let mut s = vec![0, 0, 0, 0, 2, 0, 0, 1];
        let mut valid = 0u64;
        for (tag, _, _) in &self.tables {
            valid |= 1 << tag;
        }
        s.extend_from_slice(&valid.to_le_bytes());
        s.extend_from_slice(&0u64.to_le_bytes());
        for (_, n, _) in &self.tables {
            put32(&mut s, *n);
        }
        for (_, _, rows) in &self.tables {
            s.extend_from_slice(rows);
        }
        s
    }

    /// The metadata root: header, stream directory, then the streams.
    fn root(&self) -> Vec<u8> {
        let version = b"v4.0.30319\0\0";
        let streams: Vec<(&str, Vec<u8>)> = vec![
            ("#~", self.tables_stream()),
            ("#Strings", self.strings.clone()),
            ("#US", self.us.clone()),
            ("#Blob", self.blob.clone()),
        ];
        let mut header_len = 16 + version.len() + 4;
        for (name, _) in &streams {
            header_len += 8 + (name.len() + 1 + 3) / 4 * 4;
        }
        let mut out = vec![];
        put32(&mut out, 0x424A_5342);
        put16(&mut out, 1);
        put16(&mut out, 1);
        put32(&mut out, 0);
        put32(&mut out, version.len() as u32);
        out.extend_from_slice(version);
        put16(&mut out, 0);
        put16(&mut out, streams.len() as u16);
        let mut offset = header_len;
        for (name, data) in &streams {
            put32(&mut out, offset as u32);
            put32(&mut out, data.len() as u32);
            out.extend_from_slice(name.as_bytes());
            out.push(0);
            while out.len() % 4 != 0 {
                out.push(0);
            }
            offset += (data.len() + 3) / 4 * 4;
        }
        assert_eq!(out.len(), header_len);
        for (_, data) in &streams {
            out.extend_from_slice(data);
            while out.len() % 4 != 0 {
                out.push(0);
            }
        }
        out
    }
}

fn type_ref(name: u16, namespace: u16) -> Vec<u8> {
    let mut r = vec![];
    put16(&mut r, 0);
    put16(&mut r, name);
    put16(&mut r, namespace);
    r
}

fn type_def(name: u16, namespace: u16, method_list: u16) -> Vec<u8> {
    let mut r = vec![];
    put32(&mut r, 0x0010_0001);
    put16(&mut r, name);
    put16(&mut r, namespace);
    put16(&mut r, 0);
    put16(&mut r, 1);
    put16(&mut r, method_list);
    r
}

fn method_def(name: u16, signature: u16) -> Vec<u8> {
    let mut r = vec![];
    put32(&mut r, 0x2050);
    put16(&mut r, 0);
    put16(&mut r, 0x0096);
    put16(&mut r, name);
    put16(&mut r, signature);
    put16(&mut r, 1);
    r
}

fn member_ref_on_type_ref(type_ref_row: u16, name: u16, signature: u16) -> Vec<u8> {
    let mut r = vec![];
    put16(&mut r, (type_ref_row << 3) | 1);
    put16(&mut r, name);
    put16(&mut r, signature);
    r
}

fn tiny_body(code: &[u8]) -> MethodBody {
    let mut b = vec![((code.len() as u8) << 2) | 0x02];
    b.extend_from_slice(code);
    MethodBody::parse(&b, 0).unwrap()
}

fn contains(hay: &[u8], needle: &[u8]) -> bool {
    hay.windows(needle.len()).any(|w| w == needle)
}

/// A program whose `Main` prints "Hello" through an imported `WriteLine`.
fn hello_world() -> (Vec<u8>, Vec<MethodBody>) {
    let mut b = Builder::new();
    let program = b.string("Program");
    let main = b.string("Main");
    let system = b.string("System");
    let console = b.string("Console");
    let write_line = b.string("WriteLine");
    let hello = b.user_string("Hello");
    let void_string = b.blob(&[0x00, 0x01, 0x01, 0x0E]);
    let void_void = b.blob(&[0x00, 0x00, 0x01]);
    b.table(0x01, vec![type_ref(console, system)]);
    b.table(0x02, vec![type_def(program, 0, 1)]);
    b.table(0x06, vec![method_def(main, void_void)]);
    b.table(0x0A, vec![member_ref_on_type_ref(1, write_line, void_string)]);
    let mut code = vec![0x72];
    code.extend_from_slice(&(0x7000_0000 | hello).to_le_bytes());
    code.push(0x28);
    code.extend_from_slice(&0x0A00_0001u32.to_le_bytes());
    code.push(0x2A);
    (b.root(), vec![tiny_body(&code)])
}

#[test]
fn empty_module() {
    let b = Builder::new();
    let bytes = b.root();
    let root = MetadataRoot::parse(&bytes).unwrap();
    let ctx = WasmContext::new(&root).unwrap();
    assert!(ctx.string_cache.is_empty());
    let wasm = compile_metadata(&root, &vec![]).unwrap();
    wasmparser::validate(&wasm).unwrap();
    // magic, version, then only the memory section: one memory, minimum 1, no maximum.
    assert_eq!(&wasm[0..8], &[0x00, 0x61, 0x73, 0x6d, 0x01, 0x00, 0x00, 0x00]);
    assert!(contains(&wasm, &[0x05, 0x03, 0x01, 0x00, 0x01]));
}

#[test]
fn hello_world_print() {
    let (bytes, bodies) = hello_world();
    let root = MetadataRoot::parse(&bytes).unwrap();
    let wasm = compile_metadata(&root, &bodies).unwrap();
    wasmparser::validate(&wasm).unwrap();
    assert!(contains(&wasm, b"env"));
    assert!(contains(&wasm, b"[System]Console::WriteLine"));
    assert!(contains(&wasm, b"Program::Main"));
    assert!(!contains(&wasm, b"[]Program::Main"));
    // (i32 i32 i32) -> () and () -> ()
    assert!(contains(&wasm, &[0x60, 0x03, 0x7F, 0x7F, 0x7F, 0x00]));
    assert!(contains(&wasm, &[0x60, 0x00, 0x00]));
    // no locals; i32.const 0, i32.const 5, i32.const 0, call 0, return, end
    assert!(contains(&wasm, &[0x00, 0x41, 0x00, 0x41, 0x05, 0x41, 0x00, 0x10, 0x00, 0x0F, 0x0B]));
    // the data segment: memory 0, offset i32.const 0, five bytes "Hello"
    assert!(contains(&wasm, &[0x00, 0x41, 0x00, 0x0B, 0x05, b'H', b'e', b'l', b'l', b'o']));
}

#[test]
fn hello_world_caches() {
    let (bytes, bodies) = hello_world();
    let root = MetadataRoot::parse(&bytes).unwrap();
    let table = &root.metadata_stream.table;
    let mut ctx = WasmContext::new(&root).unwrap();
    assert_eq!(
        ctx.string_cache,
        vec![(UserStringIndex(1), StringCacheData { data_index: 0, str_len: 5 })]
    );
    ctx.emit_member_refs(table, root.heap).unwrap();
    assert_eq!(ctx.member_ref_cache.len(), 1);
    assert_eq!(ctx.member_ref_cache[0].0, MemberRefIndex(1));
    assert_eq!(ctx.member_ref_cache[0].1.fn_index, 0);
    ctx.emit_type_headers(table, root.heap).unwrap();
    assert_eq!(ctx.method_cache.len(), 1);
    assert_eq!(ctx.method_cache[0].0, MethodDefIndex(1));
    assert_eq!(ctx.method_cache[0].1.fn_index, 1);
    ctx.emit_bodies(table, root.heap, &bodies).unwrap();
    wasmparser::validate(&ctx.finish()).unwrap();
}

#[test]
fn two_strings_advance_by_length() {
    let mut b = Builder::new();
    let first = b.user_string("Hello");
    let second = b.user_string("World!");
    let bytes = b.root();
    let root = MetadataRoot::parse(&bytes).unwrap();
    let ctx = WasmContext::new(&root).unwrap();
    assert_eq!(
        ctx.string_cache,
        vec![
            (UserStringIndex(first), StringCacheData { data_index: 0, str_len: 5 }),
            (UserStringIndex(second), StringCacheData { data_index: 5, str_len: 6 }),
        ]
    );
}

#[test]
fn caller_calls_callee_index() {
    let mut b = Builder::new();
    let program = b.string("Program");
    let main = b.string("Main");
    let helper = b.string("Helper");
    let void_void = b.blob(&[0x00, 0x00, 0x01]);
    b.table(0x02, vec![type_def(program, 0, 1)]);
    b.table(0x06, vec![method_def(main, void_void), method_def(helper, void_void)]);
    let bytes = b.root();
    let root = MetadataRoot::parse(&bytes).unwrap();
    let mut call = vec![0x28];
    call.extend_from_slice(&0x0600_0002u32.to_le_bytes());
    call.push(0x2A);
    let bodies = vec![tiny_body(&call), tiny_body(&[0x00, 0x2A])];
    let wasm = compile_metadata(&root, &bodies).unwrap();
    wasmparser::validate(&wasm).unwrap();
    assert!(contains(&wasm, b"Program::Main"));
    assert!(contains(&wasm, b"Program::Helper"));
    // no imports: the callee is function 0 + 1
    assert!(contains(&wasm, &[0x00, 0x10, 0x01, 0x0F, 0x0B]));
    let table = &root.metadata_stream.table;
    let mut ctx = WasmContext::new(&root).unwrap();
    ctx.emit_member_refs(table, root.heap).unwrap();
    ctx.emit_type_headers(table, root.heap).unwrap();
    assert_eq!(ctx.method_cache[0].1.fn_index, 0);
    assert_eq!(ctx.method_cache[1].1.fn_index, 1);
}

#[test]
fn instance_method_lowering() {
    let (sig, _) = MethodDefSig::parse(&[0x20, 0x01, 0x01, 0x08], 0).unwrap();
    let (params, results) = lower_signature(&sig).unwrap();
    assert_eq!(params, vec![ValTy::I32, ValTy::I32]);
    assert!(results.is_empty());
    let (string_sig, _) = MethodDefSig::parse(&[0x00, 0x02, 0x01, 0x0E, 0x0A], 0).unwrap();
    let (params, _) = lower_signature(&string_sig).unwrap();
    assert_eq!(params, vec![ValTy::I32, ValTy::I32, ValTy::I32, ValTy::I64]);
    let (ret_int, _) = MethodDefSig::parse(&[0x00, 0x00, 0x08], 0).unwrap();
    assert_eq!(lower_signature(&ret_int).unwrap_err(), Error::UnsupportedSignature);
}

#[test]
fn instance_method_module() {
    let mut b = Builder::new();
    let program = b.string("Program");
    let run = b.string("Run");
    let this_int = b.blob(&[0x20, 0x01, 0x01, 0x08]);
    b.table(0x02, vec![type_def(program, 0, 1)]);
    b.table(0x06, vec![method_def(run, this_int)]);
    let bytes = b.root();
    let root = MetadataRoot::parse(&bytes).unwrap();
    let wasm = compile_metadata(&root, &vec![tiny_body(&[0x02, 0x03, 0x2A])]).unwrap();
    wasmparser::validate(&wasm).unwrap();
    assert!(contains(&wasm, &[0x60, 0x02, 0x7F, 0x7F, 0x00]));
}

#[test]
fn unknown_opcode_stops_compilation() {
    let (bytes, _) = hello_world();
    let root = MetadataRoot::parse(&bytes).unwrap();
    let body = [0x02 | (2 << 2), 0x00, 0xEE];
    assert_eq!(MethodBody::parse(&body, 0).unwrap_err(), Error::UnsupportedOpcode);
    let lowered = compile_metadata(&root, &vec![tiny_body(&[0x01, 0x2A])]);
    assert_eq!(lowered, Err(Error::UnsupportedOpcode));
}

#[test]
fn generic_call_is_refused() {
    let (bytes, _) = hello_world();
    let root = MetadataRoot::parse(&bytes).unwrap();
    let mut code = vec![0x28];
    code.extend_from_slice(&0x2B00_0001u32.to_le_bytes());
    let r = compile_metadata(&root, &vec![tiny_body(&code)]);
    assert_eq!(r, Err(Error::UnsupportedGenericCall));
    let mut code = vec![0x28];
    code.extend_from_slice(&0x0200_0001u32.to_le_bytes());
    let r = compile_metadata(&root, &vec![tiny_body(&code)]);
    assert_eq!(r, Err(Error::MalformedCallTarget));
}

#[test]
fn member_ref_on_type_def_is_refused() {
    let mut b = Builder::new();
    let program = b.string("Program");
    let m = b.string("M");
    let void_void = b.blob(&[0x00, 0x00, 0x01]);
    b.table(0x02, vec![type_def(program, 0, 1)]);
    b.table(0x0A, vec![{
        let mut r = vec![];
        put16(&mut r, 1 << 3);
        put16(&mut r, m);
        put16(&mut r, void_void);
        r
    }]);
    let bytes = b.root();
    let root = MetadataRoot::parse(&bytes).unwrap();
    assert_eq!(compile_metadata(&root, &vec![]), Err(Error::UnsupportedMemberRefParent));
}

#[test]
fn out_of_range_row_reference_is_bad_index() {
    let mut b = Builder::new();
    let program = b.string("Program");
    b.table(0x02, vec![type_def(program, 0, 7)]);
    let bytes = b.root();
    assert_eq!(MetadataRoot::parse(&bytes).unwrap_err(), Error::BadIndex);
}

#[test]
fn out_of_range_heap_index_is_heap_error() {
    let mut b = Builder::new();
    b.table(0x02, vec![type_def(900, 0, 1)]);
    let bytes = b.root();
    assert_eq!(MetadataRoot::parse(&bytes).unwrap_err(), Error::HeapDecodeError);
}

#[test]
fn unknown_table_bit_is_refused() {
    let mut b = Builder::new();
    b.table(0x03, vec![]);
    let bytes = b.root();
    assert_eq!(MetadataRoot::parse(&bytes).unwrap_err(), Error::UnknownTable);
}

#[test]
fn bad_signature_word_is_malformed() {
    let b = Builder::new();
    let mut bytes = b.root();
    bytes[0] = 0;
    assert_eq!(MetadataRoot::parse(&bytes).unwrap_err(), Error::MalformedImage);
}

#[test]
fn missing_table_stream() {
    let mut bytes = vec![];
    put32(&mut bytes, 0x424A_5342);
    put16(&mut bytes, 1);
    put16(&mut bytes, 1);
    put32(&mut bytes, 0);
    put32(&mut bytes, 4);
    bytes.extend_from_slice(b"v1\0\0");
    put16(&mut bytes, 0);
    put16(&mut bytes, 0);
    assert_eq!(MetadataRoot::parse(&bytes).unwrap_err(), Error::MissingStream);
}

#[test]
fn root_fields_and_tables() {
    let (bytes, _) = hello_world();
    let root = MetadataRoot::parse(&bytes).unwrap();
    assert_eq!(root.version, b"v4.0.30319");
    assert_eq!(root.metadata_stream.major_version, 2);
    let table = &root.metadata_stream.table;
    assert_eq!(table.type_def.len(), 1);
    assert_eq!(table.method_def.len(), 1);
    assert_eq!(table.member_ref.len(), 1);
    assert_eq!(table.type_ref.len(), 1);
    assert_eq!(root.heap.ref_string(table.type_def[0].name.0 as usize), Some(&b"Program"[..]));
    let range = clrs::indices::TypeDefIndex(1).method_range(table);
    assert_eq!(range, (0, 1));
    assert_eq!(clrs::indices::TypeDefIndex(2).method_range(table), (0, 0));
    assert!(clrs::indices::MethodDefIndex(1).resolve_table(table).is_some());
    assert!(clrs::indices::MethodDefIndex(2).resolve_table(table).is_none());
}

fn method_def_at(name: u16, signature: u16, rva: u32) -> Vec<u8> {
    let mut r = method_def(name, signature);
    r[0..4].copy_from_slice(&rva.to_le_bytes());
    r
}

/// The metadata root of the hello-world program whose `Main` body sits at `rva`.
fn hello_world_root(rva: u32) -> Vec<u8> {
    let mut b = Builder::new();
    let program = b.string("Program");
    let main = b.string("Main");
    let system = b.string("System");
    let console = b.string("Console");
    let write_line = b.string("WriteLine");
    b.user_string("Hello");
    let void_string = b.blob(&[0x00, 0x01, 0x01, 0x0E]);
    let void_void = b.blob(&[0x00, 0x00, 0x01]);
    b.table(0x01, vec![type_ref(console, system)]);
    b.table(0x02, vec![type_def(program, 0, 1)]);
    b.table(0x06, vec![method_def_at(main, void_void, rva)]);
    b.table(0x0A, vec![member_ref_on_type_ref(1, write_line, void_string)]);
    b.root()
}

/// A PE32 image with one section at RVA 0x2000 holding the CLI header,
/// the metadata root and the body of `Main`.
fn hello_world_image() -> Vec<u8> {
    let root_rva = 0x2050u32;
    let root_len = hello_world_root(0).len() as u32;
    let body_rva = root_rva + (root_len + 3) / 4 * 4;
    let root = hello_world_root(body_rva);
    let body = [0x2E, 0x72, 0x01, 0x00, 0x00, 0x70, 0x28, 0x01, 0x00, 0x00, 0x0A, 0x2A];

    let mut section = vec![0u8; 8];
    put32(&mut section, 72);
    put16(&mut section, 2);
    put16(&mut section, 5);
    put32(&mut section, root_rva);
    put32(&mut section, root_len);
    put32(&mut section, 1);
    put32(&mut section, 0x0600_0001);
    section.resize(0x50, 0);
    section.extend_from_slice(&root);
    section.resize((body_rva - 0x2000) as usize, 0);
    section.extend_from_slice(&body);
    let virtual_size = section.len() as u32;
    section.resize((section.len() + 0x1FF) / 0x200 * 0x200, 0);

    let mut f = vec![0u8; 0x80];
    f[0] = b'M';
    f[1] = b'Z';
    f[0x3C] = 0x80;
    f.extend_from_slice(b"PE\0\0");
    put16(&mut f, 0x14C);
    put16(&mut f, 1);
    put32(&mut f, 0);
    put32(&mut f, 0);
    put32(&mut f, 0);
    put16(&mut f, 0xE0);
    put16(&mut f, 0x0102);
    let oh = f.len();
    put16(&mut f, 0x10B);
    f.push(8);
    f.push(0);
    put32(&mut f, section.len() as u32);
    put32(&mut f, 0);
    put32(&mut f, 0);
    put32(&mut f, 0);
    put32(&mut f, 0x2000);
    put32(&mut f, 0x4000);
    put32(&mut f, 0x40_0000);
    put32(&mut f, 0x2000);
    put32(&mut f, 0x200);
    for v in [4u16, 0, 0, 0, 4, 0] {
        put16(&mut f, v);
    }
    put32(&mut f, 0);
    put32(&mut f, 0x4000);
    put32(&mut f, 0x200);
    put32(&mut f, 0);
    put16(&mut f, 3);
    put16(&mut f, 0x8540);
    for v in [0x10_0000u32, 0x1000, 0x10_0000, 0x1000, 0, 16] {
        put32(&mut f, v);
    }
    for i in 0..16 {
        if i == 14 {
            put32(&mut f, 0x2008);
            put32(&mut f, 72);
        } else {
            put32(&mut f, 0);
            put32(&mut f, 0);
        }
    }
    assert_eq!(f.len() - oh, 0xE0);
    f.extend_from_slice(b".text\0\0\0");
    put32(&mut f, virtual_size);
    put32(&mut f, 0x2000);
    put32(&mut f, section.len() as u32);
    put32(&mut f, 0x200);
    put32(&mut f, 0);
    put32(&mut f, 0);
    put16(&mut f, 0);
    put16(&mut f, 0);
    put32(&mut f, 0x6000_0020);
    f.resize(0x200, 0);
    f.extend_from_slice(&section);
    f
}

#[test]
fn image_from_pe_bytes() {
    let bytes = hello_world_image();
    let image = clrs::image::Image::from_bytes(&bytes).unwrap();
    assert_eq!(image.cli_header().cb, 72);
    assert_eq!(image.cli_header().metadata.virtual_address, 0x2050);
    assert_eq!(image.metadata_root().signature, 0x424A_5342);
    assert_eq!(image.get_data(0x2050), Ok(0x250));
    let wasm = clrs::phases::compile(&image).unwrap();
    wasmparser::validate(&wasm).unwrap();
    assert!(contains(&wasm, b"[System]Console::WriteLine"));
    assert!(contains(&wasm, b"Program::Main"));
    assert!(contains(&wasm, &[0x00, 0x41, 0x00, 0x41, 0x05, 0x41, 0x00, 0x10, 0x00, 0x0F, 0x0B]));
}

#[test]
fn image_with_other_machine_is_refused() {
    let mut bytes = hello_world_image();
    bytes[0x84] = 0x64;
    bytes[0x85] = 0x86;
    assert_eq!(clrs::image::Image::from_bytes(&bytes).err(), Some(Error::MalformedImage));
}
