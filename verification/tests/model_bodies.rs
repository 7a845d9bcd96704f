use pamplona::models::association_lists::{association_lists, AssociationList, GetListsResponse};
use pamplona::models::authentication::{
    entitlements, AuthResponse, Entitlement, ListEntitlementsResponse,
};
use pamplona::models::user_sessions::{
    UpdateExtendedDataAttribute, UpdateHardwareFlags, UserSessionExtendedData, ValidateSessionKey,
};
use pamplona::session::User;
use pamplona::tdf_out::TdfEncode;
use std::sync::Arc;
use tdf::{ObjectId, ObjectType, TdfSerialize, TdfSerializer, TdfType, TdfTyped};

fn encoded<T: TdfEncode>(value: &T) -> Vec<u8> {
    let mut w = Vec::new();
    value.serialize(&mut w);
    w
}

fn user() -> Arc<User> {
    Arc::new(User {
        user_id: 42,
        username: "Faith".to_string(),
        persona_id: 1337,
    })
}

// The same fields written directly with the `tdf` writer, group closures and
// all, to compare against.

struct RefList<'a>(&'a AssociationList);

impl TdfSerialize for RefList<'_> {
    fn serialize<S: TdfSerializer>(&self, w: &mut S) {
        let l = self.0;
        w.group(b"INFO", |w| {
            w.tag_alt(
                b"BOID",
                ObjectId::new(ObjectType::new(25, l.ty as u16), 1011786733),
            );
            w.tag_u8(b"FLGS", l.flgs);
            w.group(b"LID", |w| {
                w.tag_str(b"LNM", l.name);
                w.tag_u8(b"TYPE", l.ty);
            });
            w.tag_u32(b"LMS", l.lms);
            w.tag_str(b"PNAM", l.pnam);
            w.tag_u8(b"PRID", l.prid);
            w.tag_u32(b"PRMS", l.prms);
        });
        w.tag_zero(b"OFRC");
        w.tag_zero(b"TOCT");
        w.tag_group_end();
    }
}

impl TdfTyped for RefList<'_> {
    const TYPE: TdfType = TdfType::Group;
}

struct RefEntitlement<'a>(&'a Entitlement);

impl TdfSerialize for RefEntitlement<'_> {
    fn serialize<S: TdfSerializer>(&self, w: &mut S) {
        let e = self.0;
        w.tag_str_empty(b"DEVI");
        w.tag_str(b"GDAY", "2016-06-12T14:35Z");
        w.tag_str(b"GNAM", e.name);
        w.tag_u64(b"ID", e.id);
        w.tag_u8(b"ISCO", 0);
        w.tag_u8(b"PID", 0);
        w.tag_str(b"PJID", e.pjid);
        w.tag_u8(b"PRCA", e.prca);
        w.tag_str(b"PRID", e.prid);
        w.tag_u8(b"STAT", 1);
        w.tag_u8(b"STRC", 0);
        w.tag_str(b"TAG", e.tag);
        w.tag_str_empty(b"TDAY");
        w.tag_u8(b"TYPE", e.ty);
        w.tag_u8(b"UCNT", 0);
        w.tag_u8(b"VER", 0);
        w.tag_group_end();
    }
}

impl TdfTyped for RefEntitlement<'_> {
    const TYPE: TdfType = TdfType::Group;
}

#[test]
fn association_list_matches_tdf_writer() {
    for l in association_lists() {
        let mut expected = Vec::new();
        RefList(&l).serialize(&mut expected);
        assert_eq!(encoded(&l), expected);
    }
}

#[test]
fn association_lists_are_friend_follow_block() {
    let lists = association_lists();
    assert_eq!(lists.len(), 3);
    assert_eq!(lists[0].name, "friendList");
    assert_eq!((lists[0].ty, lists[0].flgs, lists[0].lms), (1, 4, 2000));
    assert_eq!(lists[1].name, "followList");
    assert_eq!(lists[1].pnam, "followerList");
    assert_eq!((lists[1].prid, lists[1].prms), (6, 50000));
    assert_eq!(lists[2].name, "communicationBlockList");
    assert_eq!((lists[2].ty, lists[2].lms), (4, 100));
}

#[test]
fn get_lists_response_is_a_group_list() {
    let lists = association_lists();
    let refs: Vec<RefList> = lists.iter().map(RefList).collect();
    let mut expected = Vec::new();
    expected.tag_list_slice(b"LMAP", &refs);
    let response = GetListsResponse { list: association_lists() };
    assert_eq!(encoded(&response), expected);
}

#[test]
fn entitlement_matches_tdf_writer() {
    let list = entitlements();
    assert_eq!(list.len(), 1);
    let e = &list[0];
    assert_eq!(e.name, "MECATPC");
    assert_eq!(e.id, 345193323);
    assert_eq!(e.tag, "ONLINE_ACCESS");
    let mut expected = Vec::new();
    RefEntitlement(e).serialize(&mut expected);
    assert_eq!(encoded(e), expected);
}

#[test]
fn entitlement_pc_sets_name_and_type() {
    let e = Entitlement::pc(7, "p", 3, "r", "t");
    assert_eq!((e.name, e.id, e.pjid, e.prca, e.prid, e.tag, e.ty), ("MECATPC", 7, "p", 3, "r", "t", 1));
}

#[test]
fn list_entitlements_response_is_a_group_list() {
    let list = entitlements();
    let refs: Vec<RefEntitlement> = list.iter().map(RefEntitlement).collect();
    let mut expected = Vec::new();
    expected.tag_list_slice(b"NLST", &refs);
    assert_eq!(encoded(&ListEntitlementsResponse { list: entitlements() }), expected);
}

#[test]
fn auth_response_matches_tdf_writer() {
    let u = user();
    let mut w: Vec<u8> = Vec::new();
    w.tag_zero(b"CNTX");
    w.tag_zero(b"ERRC");
    w.tag_str(b"SKEY", "0");
    w.tag_zero(b"ANON");
    w.tag_zero(b"NTOS");
    w.group(b"SESS", |w| {
        w.tag_zero(b"1CON");
        w.tag_u32(b"BUID", u.persona_id);
        w.tag_zero(b"FRST");
        w.tag_str(b"KEY", "0");
        w.tag_u32(b"LLOG", 1700769352);
        w.tag_str(b"MAIL", "******@beatrevival.me");
        w.group(b"PDTL", |w| {
            w.tag_str(b"DSNM", &u.username);
            w.tag_zero(b"LAST");
            w.tag_u32(b"PID", u.persona_id);
            w.tag_u8(b"PLAT", 4);
            w.tag_zero(b"STAS");
            w.tag_u32(b"XREF", u.user_id);
        });
        w.tag_u32(b"UID", u.user_id);
    });
    w.tag_zero(b"SPAM");
    w.tag_zero(b"UNDR");
    assert_eq!(encoded(&AuthResponse { user: u.clone() }), w);
}

#[test]
fn hardware_flags_match_tdf_writer() {
    let u = user();
    let mut w: Vec<u8> = Vec::new();
    w.tag_zero(b"1CON");
    w.tag_u32(b"ALOC", 1920292161);
    w.tag_u32(b"BUID", u.persona_id);
    w.tag_alt(b"CGID", ObjectId::new(ObjectType::new(30722, 2), 88123840));
    w.tag_str(b"DSNM", &u.username);
    w.tag_zero(b"FRST");
    w.tag_str(b"KEY", "0");
    w.tag_u32(b"LAST", 1700769152);
    w.tag_u32(b"LLOG", 1700769258);
    w.tag_str(b"MAIL", "******@beatrevival.me");
    w.tag_str(b"NASP", "cem_ea_id");
    w.tag_owned(b"PID", u.persona_id);
    w.tag_u8(b"PLAT", 4);
    w.tag_owned(b"UID", u.user_id);
    w.tag_u8(b"USTP", 0);
    w.tag_owned(b"XREF", u.user_id);
    assert_eq!(encoded(&UpdateHardwareFlags { user: u.clone() }), w);
}

#[test]
fn extended_data_attribute_matches_tdf_writer() {
    let u = user();
    let mut w: Vec<u8> = Vec::new();
    w.tag_u8(b"FLGS", 3);
    w.tag_u32(b"ID", u.persona_id);
    assert_eq!(encoded(&UpdateExtendedDataAttribute { user: u.clone() }), w);
}

#[test]
fn extended_data_matches_tdf_writer() {
    let u = user();
    let mut w: Vec<u8> = Vec::new();
    w.group(b"DATA", |w| {
        w.tag_union_value(b"ADDR", 0, b"BPS", &"");
        w.tag_str(b"CTY", "");
        w.tag_var_int_list_empty(b"CVAR");
        w.tag_map_tuples(b"DMAP", &[(2013396993, 0)]);
        w.tag_u32(b"HWFG", 0);
        w.tag_str(b"ISP", "");
        w.group(b"QDAT", |w| {
            w.tag_u32(b"BWHR", 0);
            w.tag_u32(b"DBPS", 0);
            w.tag_u32(b"NAHR", 0);
            w.tag_u32(b"NATT", 0);
            w.tag_u32(b"UBPS", 0);
        });
        w.tag_str(b"TZ", "");
        w.tag_u32(b"UATT", 0);
        w.tag_var_int_list(b"ULST", &[30722, 2, 88123840]);
        w.group(b"USER", |w| {
            w.tag_u32(b"AID", u.user_id);
            w.tag_u32(b"ALOC", 1920292161);
            w.tag_blob_empty(b"EXBB");
            w.tag_u32(b"EXID", u.user_id);
            w.tag_u32(b"ID", u.persona_id);
            w.tag_str(b"NAME", &u.username);
            w.tag_str(b"NASP", "cem_ea_id");
            w.tag_u32(b"ORIG", u.persona_id);
            w.tag_u32(b"PIDI", 0);
        });
    });
    assert_eq!(encoded(&UserSessionExtendedData { user: u.clone() }), w);
}

#[test]
fn validate_session_key_matches_tdf_writer() {
    let u = user();
    let mut w: Vec<u8> = Vec::new();
    w.group(b"DATA", |w| {
        w.tag_union_value(b"ADDR", 2, b"VALU", &{
            let mut w = Vec::new();
            w.group(b"EXIP", |w| {
                w.tag_u32(b"IP", 2130706433);
                w.tag_u32(b"MACI", 0);
                w.tag_u16(b"PORT", 3659);
            });
            w.group(b"INIP", |w| {
                w.tag_u32(b"IP", 3232235776);
                w.tag_u32(b"MACI", 0);
                w.tag_u16(b"PORT", 3659);
            });
            w.tag_u32(b"MACI", 1129238128);
            w
        });
        w.tag_str(b"BPS", "");
        w.tag_str(b"CTY", "");
        w.tag_var_int_list_empty(b"CVAR");
        w.tag_map_tuples(b"DMAP", &[(2013396993, 0)]);
        w.tag_u32(b"HWFG", 0);
        w.tag_str(b"ISP", "");
        w.group(b"QDAT", |w| {
            w.tag_u32(b"BWHR", 0);
            w.tag_u32(b"DBPS", 0);
            w.tag_u32(b"NAHR", 0);
            w.tag_u32(b"NATT", 0);
            w.tag_u32(b"UBPS", 0);
        });
        w.tag_str(b"TZ", "");
        w.tag_u32(b"UATT", 0);
        w.tag_alt(b"ULST", ObjectId::new(ObjectType::new(30722, 2), 88123840));
    });
    w.tag_u32(b"SUBS", 1);
    w.tag_u32(b"USID", u.persona_id);
    assert_eq!(encoded(&ValidateSessionKey { user: u.clone() }), w);
}

#[test]
fn serialize_appends_to_existing_bytes() {
    let mut w = vec![0xEE];
    UpdateExtendedDataAttribute { user: user() }.serialize(&mut w);
    let alone = encoded(&UpdateExtendedDataAttribute { user: user() });
    assert_eq!(w[0], 0xEE);
    assert_eq!(&w[1..], &alone[..]);
}

#[test]
fn zero_field_is_header_then_zero_byte() {
    // A group end is the single byte 0; a zero integer ends with 0 too.
    let mut w = Vec::new();
    UpdateExtendedDataAttribute { user: Arc::new(User { user_id: 0, username: String::new(), persona_id: 0 }) }
        .serialize(&mut w);
    assert_eq!(*w.last().unwrap(), 0);
}
