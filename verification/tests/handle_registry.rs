use asn1box::registry::descriptor_target;
use asn1box::registry::registry_targets;
use asn1box::short_msg::NullNetworking;
use asn1box::short_msg::ShortMsgBcPDU;
use asn1box::short_msg::ShortMsgNpdu;
use asn1box::short_msg::ShortMsgSubtype;
use asn1box::short_msg::ShortMsgTpdus;
use asn1box::short_msg::VarLengthNumber;
use asn1box::ASNBox;
use asn1box::Provenance;

fn sample_msg(version: i64, dest_address: i64, body: Vec<u8>) -> ShortMsgNpdu {
    ShortMsgNpdu {
        subtype: ShortMsgSubtype::NullNetworking(NullNetworking { version }),
        transport: ShortMsgTpdus::BcMode(ShortMsgBcPDU {
            dest_address: VarLengthNumber::Content(dest_address),
        }),
        body,
    }
}

#[test]
fn wrapping_a_native_value_tags_it_rust_allocated() {
    let handle = ASNBox::new_from_box(Box::new(sample_msg(3, 4, vec![1, 2])));
    assert_eq!(handle.provenance(), Provenance::RustAllocated);
    assert_eq!(handle.get().version(), 3);
    assert_eq!(handle.get().dest_address(), 4);
    assert_eq!(handle.get().body, vec![1, 2]);
}

#[test]
fn wrapping_a_codec_value_tags_it_codec_allocated() {
    let handle = ASNBox::new_from_asn1codec_allocated_struct(Some(Box::new(sample_msg(1, 2, vec![]))));
    assert_eq!(handle.provenance(), Provenance::Asn1CodecAllocated);
    assert_eq!(handle.get().version(), 1);
}

#[test]
fn provenance_survives_mutation_and_moves() {
    let mut handle = ASNBox::new_from_box(Box::new(sample_msg(3, 4, vec![1, 2])));
    let inner = handle.get_raw_mut_ptr();
    inner.body.push(9);
    inner.subtype = ShortMsgSubtype::NullNetworking(NullNetworking { version: 7 });
    assert_eq!(handle.get().version(), 7);
    assert_eq!(handle.get().body, vec![1, 2, 9]);
    assert_eq!(handle.provenance(), Provenance::RustAllocated);
    // moving the handle does not touch the tag either
    let moved = handle;
    assert_eq!(moved.provenance(), Provenance::RustAllocated);
}

#[test]
fn descriptor_target_strips_the_prefix() {
    let name = descriptor_target(&b"asn_DEF_ShortMsgNpdu".to_vec());
    assert_eq!(name, Some(b"ShortMsgNpdu".to_vec()));
    // the bare prefix names nothing, but is still recognised
    assert_eq!(descriptor_target(&b"asn_DEF_".to_vec()), Some(Vec::new()));
}

#[test]
fn descriptor_target_rejects_other_identifiers() {
    assert_eq!(descriptor_target(&b"asn_def_ShortMsgNpdu".to_vec()), None);
    assert_eq!(descriptor_target(&b"ShortMsgNpdu".to_vec()), None);
    assert_eq!(descriptor_target(&b"asn_DE".to_vec()), None);
    assert_eq!(descriptor_target(&Vec::new()), None);
}

#[test]
fn registry_pass_pairs_descriptors_with_structures() {
    let symbols = vec![
        b"asn_DEF_ShortMsgNpdu".to_vec(),
        b"asn_DEF_VarLengthNumber".to_vec(),
        b"some_other_static".to_vec(),
        b"asn_DEF_InlineChoiceMember".to_vec(),
    ];
    let structs = vec![
        b"ShortMsgNpdu".to_vec(),
        b"VarLengthNumber".to_vec(),
        b"UnrelatedStruct".to_vec(),
    ];
    let targets = registry_targets(&symbols, &structs);
    // descriptors without a matching structure are skipped silently, in order
    assert_eq!(
        targets,
        vec![b"ShortMsgNpdu".to_vec(), b"VarLengthNumber".to_vec()]
    );
}

#[test]
fn registry_pass_on_empty_input_is_empty() {
    let targets = registry_targets(&Vec::new(), &vec![b"ShortMsgNpdu".to_vec()]);
    assert!(targets.is_empty());
}
