use clrs::indices::{TypeDefIndex, TypeRefIndex};
use clrs::signatures::{CustomMod, TypeDefOrRefOrSpecEncoded};
use clrs::cil::{Instruction, MethodBody};
use clrs::compressed::U;
use clrs::error::Error;
use clrs::heap::{Heap, StringIndex, UserStringIndex};
use clrs::indices::{MemberRefIndex, MethodDefIndex};
use clrs::signatures::{
    MethodCallingConvension, MethodDefSig, Param, RetType, Type, CALL_DEFAULT,
};
use clrs::token::MetadataToken;

#[test]
fn lib_it_works() {
    assert_eq!(2 + 2, 4);
}

#[test]
fn decode_num() {
    assert_eq!(U::parse(&0x03u8.to_be_bytes(), 0).unwrap().0, U(0x03));
    assert_eq!(U::parse(&0x8080u16.to_be_bytes(), 0).unwrap().0, U(0x80));
    assert_eq!(U::parse(&0xDFFF_FFFFu32.to_be_bytes(), 0).unwrap().0, U(0x1FFF_FFFF));
}

#[test]
fn signature_main() {
    let (sig, _) = MethodDefSig::parse(
        &[
            0,  // default
            1,  // one param
            1,  // void return
            29, // array of
            14, // string
        ],
        0,
    )
    .unwrap();

    assert_eq!(
        sig,
        MethodDefSig {
            ret: RetType::Void,
            params: vec![Param::Type {
                byref: false,
                ty: Type::SzArray {
                    element_ty: Box::new(Type::String),
                    mods: vec![],
                },
            },],
            calling_convension: MethodCallingConvension(CALL_DEFAULT),
        }
    );
}

fn encode(u: u32) -> Vec<u8> {
    if u <= 0x7F {
        vec![u as u8]
    } else if u <= 0x3FFF {
        vec![0x80 | (u >> 8) as u8, u as u8]
    } else {
        vec![0xC0 | (u >> 24) as u8, (u >> 16) as u8, (u >> 8) as u8, u as u8]
    }
}

#[test]
fn compressed_round_trip_on_edges() {
    for u in [0u32, 1, 0x7F, 0x80, 0x2E57, 0x3FFF, 0x4000, 0x12_3456, 0x3FFF_FFFF] {
        let bytes = encode(u);
        let (v, next) = U::parse(&bytes, 0).unwrap();
        assert_eq!(v, U(u));
        assert_eq!(next, bytes.len());
        assert_eq!(v.byte_size(), bytes.len());
    }
    assert_eq!(U(0x7F).byte_size(), 1);
    assert_eq!(U(0x80).byte_size(), 2);
    assert_eq!(U(0x3FFF).byte_size(), 2);
    assert_eq!(U(0x4000).byte_size(), 4);
}

#[test]
fn compressed_truncated_is_bad_input() {
    assert_eq!(U::parse(&[0x80], 0), Err(Error::BadInput));
    assert_eq!(U::parse(&[0xC0, 1, 2], 0), Err(Error::BadInput));
    assert_eq!(U::parse(&[], 0), Err(Error::BadInput));
}

#[test]
fn token_decode() {
    assert_eq!(
        MetadataToken::decode(0x0600_0001),
        Ok(MetadataToken::MethodDef(MethodDefIndex(1)))
    );
    assert_eq!(
        MetadataToken::decode(0x0A00_0002),
        Ok(MetadataToken::MemberRef(MemberRefIndex(2)))
    );
    assert_eq!(
        MetadataToken::decode(0x7000_0003),
        Ok(MetadataToken::UserString(UserStringIndex(3)))
    );
    assert_eq!(MetadataToken::decode(0xFF00_0000), Err(Error::BadToken));
    assert_eq!(
        MetadataToken::decode(0x0600_0001).unwrap().as_method_def(),
        Some(MethodDefIndex(1))
    );
    assert_eq!(MetadataToken::decode(0x0600_0001).unwrap().as_member_ref(), None);
}

#[test]
fn ldarg_body_decodes() {
    let body = [0x02 | (2 << 2), 0x02, 0x2A];
    let b = MethodBody::parse(&body, 0).unwrap();
    assert_eq!(b.instructions, vec![Instruction::LdArg(0), Instruction::Ret]);
}

#[test]
fn ldarg_three_and_call_decode() {
    let body = [0x02 | (7 << 2), 0x05, 0x28, 0x01, 0x00, 0x00, 0x06, 0x2A];
    let b = MethodBody::parse(&body, 0).unwrap();
    assert_eq!(
        b.instructions,
        vec![
            Instruction::LdArg(3),
            Instruction::Call(MetadataToken::MethodDef(MethodDefIndex(1))),
            Instruction::Ret
        ]
    );
}

#[test]
fn unknown_opcode_is_unsupported() {
    let body = [0x02 | (2 << 2), 0x00, 0xEE];
    assert_eq!(MethodBody::parse(&body, 0).unwrap_err(), Error::UnsupportedOpcode);
}

#[test]
fn fat_body_is_refused() {
    let body = [0x03, 0x30, 0x00, 0x00];
    assert_eq!(MethodBody::parse(&body, 0).unwrap_err(), Error::BadInput);
}

#[test]
fn branch_reads_signed_displacement() {
    let body = [0x02 | (5 << 2), 0x38, 0xFE, 0xFF, 0xFF, 0xFF];
    let b = MethodBody::parse(&body, 0).unwrap();
    assert_eq!(b.instructions, vec![Instruction::Br(-2)]);
}

#[test]
fn heap_accessors() {
    let strings = b"\0Program\0Main\0";
    let us = [0u8, 5, b'H', b'e', b'l', b'l', b'o'];
    let blob = [0u8, 3, 0, 0, 1];
    let guid: Vec<u8> = (0u8..40).collect();
    let heap = Heap::new(strings, &us, &blob, &guid);
    assert_eq!(heap.ref_string(0), None);
    assert_eq!(heap.ref_string(1), Some(&b"Program"[..]));
    assert_eq!(heap.ref_string(9), Some(&b"Main"[..]));
    assert_eq!(heap.ref_string(100), None);
    assert_eq!(heap.ref_user_string(1), Some(&b"Hello"[..]));
    assert_eq!(heap.ref_blob(1), Some(&[0u8, 0, 1][..]));
    assert_eq!(heap.ref_blob(0), None);
    assert_eq!(heap.ref_guid(1).unwrap().len(), 16);
    assert_eq!(heap.ref_guid(1).unwrap()[0], 1);
    assert_eq!(heap.ref_guid(30), None);
    assert_eq!(StringIndex(0).resolve(heap), Ok(None));
    assert_eq!(StringIndex(9).resolve(heap), Ok(Some(&b"Main"[..])));
    assert_eq!(StringIndex(200).resolve(heap), Err(Error::HeapDecodeError));
    assert_eq!(UserStringIndex(1).resolve(heap), Ok(Some(&b"Hello"[..])));
    assert_eq!(heap.list_user_strings(), Ok(vec![1]));
}

#[test]
fn signature_with_this_and_int() {
    let (sig, next) = MethodDefSig::parse(&[0x20, 0x01, 0x01, 0x08], 0).unwrap();
    assert_eq!(next, 4);
    assert_eq!(sig.calling_convension, MethodCallingConvension(0x20));
    assert_eq!(sig.params, vec![Param::Type { byref: false, ty: Type::I4 }]);
}

#[test]
fn unsupported_element_type() {
    assert_eq!(MethodDefSig::parse(&[0x00, 0x01, 0x01, 0x12], 0).unwrap_err(), Error::UnsupportedSignature);
}

#[test]
fn encoded_type_token_is_four_bytes() {
    assert_eq!(
        TypeDefOrRefOrSpecEncoded::parse(&[0x01, 0x02, 0x00, 0x00], 0),
        Ok((TypeDefOrRefOrSpecEncoded::TypeRef(TypeRefIndex(2)), 4))
    );
    assert_eq!(
        TypeDefOrRefOrSpecEncoded::parse(&[0x01, 0x00, 0x00, 0x00], 0),
        Ok((TypeDefOrRefOrSpecEncoded::TypeRef(TypeRefIndex(0)), 4))
    );
    assert_eq!(TypeDefOrRefOrSpecEncoded::parse(&[0x03, 0x00, 0x00, 0x00], 0), Err(Error::BadInput));
    assert_eq!(TypeDefOrRefOrSpecEncoded::parse(&[0x01, 0x00], 0), Err(Error::BadInput));
    assert_eq!(
        CustomMod::parse(&[0x20, 0x00, 0x05, 0x00, 0x00], 0),
        Ok((CustomMod::Opt(TypeDefOrRefOrSpecEncoded::TypeDef(TypeDefIndex(5))), 5))
    );
}
