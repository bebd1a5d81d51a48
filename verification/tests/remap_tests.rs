use jvm_bridge::remap::RemapTable;
use jvm_bridge::tiny::parse_tiny;

fn table() -> RemapTable {
    let text = "tiny\t2\t0\tnamed\tobfuscated\n\
        c\tnet/minecraft/client/MinecraftClient\tabc\n\
        c\tnet/minecraft/util/math/Vec3d\tdd\n\
        # a comment line\n\
        \n\
        m\tnet/minecraft/entity/Entity\t()D\tgetX\ta\n\
        m\tnet/minecraft/entity/Entity\t()Z\tisOnGround\tb\n\
        f\tnet/minecraft/client/MinecraftClient\tLnet/minecraft/client/network/ClientPlayerEntity;\tplayer\tp\n";
    parse_tiny(text.as_bytes()).expect("the mapping text is well-formed")
}

#[test]
fn class_lookup_maps_known_name() {
    let t = table();
    let r = t.remap_class(b"net/minecraft/client/MinecraftClient");
    assert_eq!(r, b"abc".to_vec());
}

#[test]
fn class_lookup_identity_for_unknown_name() {
    let t = table();
    let r = t.remap_class(b"net/minecraft/entity/Entity");
    assert_eq!(r, b"net/minecraft/entity/Entity".to_vec());
}

#[test]
fn class_round_trip_recovers_original() {
    let t = table();
    let mapped = t.remap_class(b"net/minecraft/util/math/Vec3d");
    assert_eq!(mapped, b"dd".to_vec());
    let back = t.unmap_class(&mapped);
    assert_eq!(back, b"net/minecraft/util/math/Vec3d".to_vec());
}

#[test]
fn unmap_identity_for_unknown_name() {
    let t = table();
    assert_eq!(t.unmap_class(b"zz"), b"zz".to_vec());
}

#[test]
fn method_lookup_maps_known_member() {
    let t = table();
    let r = t.remap_method(b"net/minecraft/entity/Entity", b"getX", b"()D");
    assert_eq!(r, b"a".to_vec());
}

#[test]
fn method_lookup_checks_descriptor_too() {
    let t = table();
    // same owner and name, but a different descriptor: no directive matches
    let r = t.remap_method(b"net/minecraft/entity/Entity", b"getX", b"()F");
    assert_eq!(r, b"getX".to_vec());
}

#[test]
fn field_lookup_maps_known_member() {
    let t = table();
    let r = t.remap_field(
        b"net/minecraft/client/MinecraftClient",
        b"player",
        b"Lnet/minecraft/client/network/ClientPlayerEntity;",
    );
    assert_eq!(r, b"p".to_vec());
}

#[test]
fn field_lookup_identity_for_unknown_member() {
    let t = table();
    let r = t.remap_field(b"net/minecraft/client/MinecraftClient", b"options", b"I");
    assert_eq!(r, b"options".to_vec());
}

#[test]
fn descriptor_rewrites_embedded_class_names() {
    let t = table();
    let r = t.remap_descriptor(b"()Lnet/minecraft/client/MinecraftClient;");
    assert_eq!(r, b"()Labc;".to_vec());
}

#[test]
fn descriptor_keeps_primitives_and_unknown_classes() {
    let t = table();
    let r = t.remap_descriptor(b"(DLjava/lang/String;Z)Lnet/minecraft/util/math/Vec3d;");
    assert_eq!(r, b"(DLjava/lang/String;Z)Ldd;".to_vec());
}

#[test]
fn descriptor_of_primitives_only_is_unchanged() {
    let t = table();
    assert_eq!(t.remap_descriptor(b"(DDD)V"), b"(DDD)V".to_vec());
}

#[test]
fn resolve_method_call_pairs_name_and_descriptor() {
    let t = table();
    let m = t.resolve_method_call(b"net/minecraft/entity/Entity", b"getX", b"()D");
    assert_eq!(m.name, b"a".to_vec());
    assert_eq!(m.desc, b"()D".to_vec());
}

#[test]
fn resolve_field_access_rewrites_descriptor() {
    let t = table();
    let f = t.resolve_field_access(
        b"net/minecraft/client/MinecraftClient",
        b"player",
        b"Lnet/minecraft/client/network/ClientPlayerEntity;",
    );
    assert_eq!(f.name, b"p".to_vec());
    assert_eq!(f.desc, b"Lnet/minecraft/client/network/ClientPlayerEntity;".to_vec());
}

#[test]
fn empty_table_is_pure_identity() {
    let t = RemapTable::empty();
    assert_eq!(t.remap_class(b"anything"), b"anything".to_vec());
    assert_eq!(t.remap_method(b"o", b"n", b"d"), b"n".to_vec());
    assert_eq!(t.remap_field(b"o", b"n", b"d"), b"n".to_vec());
    assert_eq!(t.remap_descriptor(b"(I)Lsome/Class;"), b"(I)Lsome/Class;".to_vec());
}

#[test]
fn first_directive_wins_on_duplicates() {
    let text = "tiny\nc\tx\tfirst\nc\tx\tsecond\n";
    let t = parse_tiny(text.as_bytes()).expect("well-formed");
    assert_eq!(t.remap_class(b"x"), b"first".to_vec());
}
