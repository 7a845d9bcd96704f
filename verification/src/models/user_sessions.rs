//! Notifications about the user session of a logged-in player.
use crate::session::User;
use crate::tdf_out::{
    tag_blob_empty, tag_byte_list, tag_group, tag_group_end, tag_int_map, tag_object_id, tag_str,
    tag_u16, tag_u32, tag_u8, tag_union_start, tag_var_int_list, tag_var_int_list_empty, tag_zero,
    tdf_blob_empty, tdf_byte_list, tdf_group, tdf_int_map, tdf_object_id, tdf_str, tdf_u16, tdf_u32,
    tdf_u8, tdf_union_start, tdf_var_int_list, tdf_var_int_list_empty, tdf_zero, valid_tag,
    TdfEncode,
};
use std::sync::Arc;
use vstd::prelude::*;

verus! {

proof fn lemma_session_tags()
    ensures
        valid_tag("1CON"),
        valid_tag("ALOC"),
        valid_tag("BUID"),
        valid_tag("CGID"),
        valid_tag("DSNM"),
        valid_tag("FRST"),
        valid_tag("KEY"),
        valid_tag("LAST"),
        valid_tag("LLOG"),
        valid_tag("MAIL"),
        valid_tag("NASP"),
        valid_tag("PID"),
        valid_tag("PLAT"),
        valid_tag("UID"),
        valid_tag("USTP"),
        valid_tag("XREF"),
        valid_tag("FLGS"),
        valid_tag("ID"),
        valid_tag("DATA"),
        valid_tag("ADDR"),
        valid_tag("BPS"),
        valid_tag("CTY"),
        valid_tag("CVAR"),
        valid_tag("DMAP"),
        valid_tag("HWFG"),
        valid_tag("ISP"),
        valid_tag("QDAT"),
        valid_tag("BWHR"),
        valid_tag("DBPS"),
        valid_tag("NAHR"),
        valid_tag("NATT"),
        valid_tag("UBPS"),
        valid_tag("TZ"),
        valid_tag("UATT"),
        valid_tag("ULST"),
        valid_tag("USER"),
        valid_tag("AID"),
        valid_tag("EXBB"),
        valid_tag("EXID"),
        valid_tag("NAME"),
        valid_tag("ORIG"),
        valid_tag("PIDI"),
        valid_tag("VALU"),
        valid_tag("EXIP"),
        valid_tag("IP"),
        valid_tag("MACI"),
        valid_tag("PORT"),
        valid_tag("INIP"),
        valid_tag("SUBS"),
        valid_tag("USID"),
{
    reveal_strlit("1CON");
    reveal_strlit("ALOC");
    reveal_strlit("BUID");
    reveal_strlit("CGID");
    reveal_strlit("DSNM");
    reveal_strlit("FRST");
    reveal_strlit("KEY");
    reveal_strlit("LAST");
    reveal_strlit("LLOG");
    reveal_strlit("MAIL");
    reveal_strlit("NASP");
    reveal_strlit("PID");
    reveal_strlit("PLAT");
    reveal_strlit("UID");
    reveal_strlit("USTP");
    reveal_strlit("XREF");
    reveal_strlit("FLGS");
    reveal_strlit("ID");
    reveal_strlit("DATA");
    reveal_strlit("ADDR");
    reveal_strlit("BPS");
    reveal_strlit("CTY");
    reveal_strlit("CVAR");
    reveal_strlit("DMAP");
    reveal_strlit("HWFG");
    reveal_strlit("ISP");
    reveal_strlit("QDAT");
    reveal_strlit("BWHR");
    reveal_strlit("DBPS");
    reveal_strlit("NAHR");
    reveal_strlit("NATT");
    reveal_strlit("UBPS");
    reveal_strlit("TZ");
    reveal_strlit("UATT");
    reveal_strlit("ULST");
    reveal_strlit("USER");
    reveal_strlit("AID");
    reveal_strlit("EXBB");
    reveal_strlit("EXID");
    reveal_strlit("NAME");
    reveal_strlit("ORIG");
    reveal_strlit("PIDI");
    reveal_strlit("VALU");
    reveal_strlit("EXIP");
    reveal_strlit("IP");
    reveal_strlit("MACI");
    reveal_strlit("PORT");
    reveal_strlit("INIP");
    reveal_strlit("SUBS");
    reveal_strlit("USID");
}

/// Notification that the hardware flags of a user's session changed.
pub struct UpdateHardwareFlags {
    pub user: Arc<User>,
}

/// The fields of an `UpdateHardwareFlags` notification for `u`.
pub open spec fn hardware_flags_bytes(u: User) -> Seq<u8> {
    tdf_zero("1CON"@) + tdf_u32("ALOC"@, 1920292161) + tdf_u32("BUID"@, u.persona_id)
        + tdf_object_id("CGID"@, 30722, 2, 88123840) + tdf_str("DSNM"@, u.username@) + tdf_zero(
        "FRST"@,
    ) + tdf_str("KEY"@, "0"@) + tdf_u32("LAST"@, 1700769152) + tdf_u32("LLOG"@, 1700769258)
        + tdf_str("MAIL"@, "******@beatrevival.me"@) + tdf_str("NASP"@, "cem_ea_id"@) + tdf_u32(
        "PID"@,
        u.persona_id,
    ) + tdf_u8("PLAT"@, 4) + tdf_u32("UID"@, u.user_id) + tdf_u8("USTP"@, 0) + tdf_u32(
        "XREF"@,
        u.user_id,
    )
}

impl TdfEncode for UpdateHardwareFlags {
    open spec fn encoded(&self) -> Seq<u8> {
        hardware_flags_bytes(*self.user)
    }

    fn serialize(&self, w: &mut Vec<u8>) {
        proof {
            lemma_session_tags();
        }
        let ghost start = w@;
        let u: &User = &self.user;
        tag_zero(w, "1CON");
        tag_u32(w, "ALOC", 1920292161);
        tag_u32(w, "BUID", u.persona_id);
        tag_object_id(w, "CGID", 30722, 2, 88123840);
        tag_str(w, "DSNM", u.username.as_str());
        tag_zero(w, "FRST");
        tag_str(w, "KEY", "0");
        tag_u32(w, "LAST", 1700769152);
        tag_u32(w, "LLOG", 1700769258);
        tag_str(w, "MAIL", "******@beatrevival.me");
        tag_str(w, "NASP", "cem_ea_id");
        tag_u32(w, "PID", u.persona_id);
        tag_u8(w, "PLAT", 4);
        tag_u32(w, "UID", u.user_id);
        tag_u8(w, "USTP", 0);
        tag_u32(w, "XREF", u.user_id);
        assert(w@ =~= start + self.encoded());
    }
}

/// Notification that an extended data attribute of a user changed.
pub struct UpdateExtendedDataAttribute {
    pub user: Arc<User>,
}

impl TdfEncode for UpdateExtendedDataAttribute {
    /// Flags 3 and the persona id.
    open spec fn encoded(&self) -> Seq<u8> {
        tdf_u8("FLGS"@, 3) + tdf_u32("ID"@, self.user.persona_id)
    }

    fn serialize(&self, w: &mut Vec<u8>) {
        proof {
            lemma_session_tags();
        }
        let ghost start = w@;
        tag_u8(w, "FLGS", 3);
        tag_u32(w, "ID", self.user.persona_id);
        assert(w@ =~= start + self.encoded());
    }
}

/// The `QDAT` group: all connection quality figures zero.
pub open spec fn quality_bytes() -> Seq<u8> {
    tdf_group("QDAT"@) + tdf_u32("BWHR"@, 0) + tdf_u32("DBPS"@, 0) + tdf_u32("NAHR"@, 0) + tdf_u32(
        "NATT"@,
        0,
    ) + tdf_u32("UBPS"@, 0) + seq![0u8]
}

fn write_quality(w: &mut Vec<u8>)
    ensures
        final(w)@ == old(w)@ + quality_bytes(),
{
    proof {
        lemma_session_tags();
    }
    let ghost start = w@;
    tag_group(w, "QDAT");
    tag_u32(w, "BWHR", 0);
    tag_u32(w, "DBPS", 0);
    tag_u32(w, "NAHR", 0);
    tag_u32(w, "NATT", 0);
    tag_u32(w, "UBPS", 0);
    tag_group_end(w);
    assert(w@ =~= start + quality_bytes());
}

/// The single entry of the `DMAP` map.
pub open spec fn data_map() -> Seq<(i32, i32)> {
    seq![(2013396993i32, 0i32)]
}

/// The user list `ULST`: component 30722, type 2, id 88123840.
pub open spec fn user_list() -> Seq<u64> {
    seq![30722u64, 2u64, 88123840u64]
}

/// The `USER` group of the extended data of `u`.
pub open spec fn extended_user_bytes(u: User) -> Seq<u8> {
    tdf_group("USER"@) + tdf_u32("AID"@, u.user_id) + tdf_u32("ALOC"@, 1920292161) + tdf_blob_empty(
        "EXBB"@,
    ) + tdf_u32("EXID"@, u.user_id) + tdf_u32("ID"@, u.persona_id) + tdf_str("NAME"@, u.username@)
        + tdf_str("NASP"@, "cem_ea_id"@) + tdf_u32("ORIG"@, u.persona_id) + tdf_u32("PIDI"@, 0)
        + seq![0u8]
}

fn write_extended_user(w: &mut Vec<u8>, u: &User)
    ensures
        final(w)@ == old(w)@ + extended_user_bytes(*u),
{
    proof {
        lemma_session_tags();
    }
    let ghost start = w@;
    tag_group(w, "USER");
    tag_u32(w, "AID", u.user_id);
    tag_u32(w, "ALOC", 1920292161);
    tag_blob_empty(w, "EXBB");
    tag_u32(w, "EXID", u.user_id);
    tag_u32(w, "ID", u.persona_id);
    tag_str(w, "NAME", u.username.as_str());
    tag_str(w, "NASP", "cem_ea_id");
    tag_u32(w, "ORIG", u.persona_id);
    tag_u32(w, "PIDI", 0);
    tag_group_end(w);
    assert(w@ =~= start + extended_user_bytes(*u));
}

/// Notification with the extended data of a user's session.
pub struct UserSessionExtendedData {
    pub user: Arc<User>,
}

impl TdfEncode for UserSessionExtendedData {
    /// A `DATA` group: an address union (variant 0, empty `BPS` string),
    /// empty location fields, the data map, zero hardware flags and quality,
    /// the user list and the `USER` group.
    open spec fn encoded(&self) -> Seq<u8> {
        tdf_group("DATA"@) + tdf_union_start("ADDR"@, 0) + tdf_str("BPS"@, ""@) + tdf_str(
            "CTY"@,
            ""@,
        ) + tdf_var_int_list_empty("CVAR"@) + tdf_int_map("DMAP"@, data_map()) + tdf_u32(
            "HWFG"@,
            0,
        ) + tdf_str("ISP"@, ""@) + quality_bytes() + tdf_str("TZ"@, ""@) + tdf_u32("UATT"@, 0)
            + tdf_var_int_list("ULST"@, user_list()) + extended_user_bytes(*self.user) + seq![0u8]
    }

    fn serialize(&self, w: &mut Vec<u8>) {
        proof {
            lemma_session_tags();
        }
        let ghost start = w@;
        let dmap: Vec<(i32, i32)> = vec![(2013396993i32, 0i32)];
        let ulst: Vec<u64> = vec![30722u64, 2u64, 88123840u64];
        assert(dmap@ =~= data_map());
        assert(ulst@ =~= user_list());
        tag_group(w, "DATA");
        tag_union_start(w, "ADDR", 0);
        tag_str(w, "BPS", "");
        tag_str(w, "CTY", "");
        tag_var_int_list_empty(w, "CVAR");
        tag_int_map(w, "DMAP", dmap.as_slice());
        tag_u32(w, "HWFG", 0);
        tag_str(w, "ISP", "");
        write_quality(w);
        tag_str(w, "TZ", "");
        tag_u32(w, "UATT", 0);
        tag_var_int_list(w, "ULST", ulst.as_slice());
        write_extended_user(w, &self.user);
        tag_group_end(w);
        assert(w@ =~= start + self.encoded());
    }
}

/// Notification that validates the session key of a user.
pub struct ValidateSessionKey {
    pub user: Arc<User>,
}

/// The bytes inside the `VALU` value of the address union: the external and
/// internal address groups and the MAC id.
pub open spec fn address_bytes() -> Seq<u8> {
    tdf_group("EXIP"@) + tdf_u32("IP"@, 2130706433) + tdf_u32("MACI"@, 0) + tdf_u16("PORT"@, 3659)
        + seq![0u8] + tdf_group("INIP"@) + tdf_u32("IP"@, 3232235776) + tdf_u32("MACI"@, 0) + tdf_u16(
        "PORT"@,
        3659,
    ) + seq![0u8] + tdf_u32("MACI"@, 1129238128)
}

fn address_value() -> (v: Vec<u8>)
    ensures
        v@ == address_bytes(),
{
    proof {
        lemma_session_tags();
    }
    let mut w: Vec<u8> = Vec::new();
    tag_group(&mut w, "EXIP");
    tag_u32(&mut w, "IP", 2130706433);
    tag_u32(&mut w, "MACI", 0);
    tag_u16(&mut w, "PORT", 3659);
    tag_group_end(&mut w);
    tag_group(&mut w, "INIP");
    tag_u32(&mut w, "IP", 3232235776);
    tag_u32(&mut w, "MACI", 0);
    tag_u16(&mut w, "PORT", 3659);
    tag_group_end(&mut w);
    tag_u32(&mut w, "MACI", 1129238128);
    assert(w@ =~= address_bytes());
    w
}

impl TdfEncode for ValidateSessionKey {
    /// A `DATA` group (address union variant 2 whose value is the
    /// `address_bytes` sent as a list of integers, empty location fields, the
    /// data map, zero quality, the user list as an object id), then one
    /// subscription and the persona id.
    open spec fn encoded(&self) -> Seq<u8> {
        tdf_group("DATA"@) + tdf_union_start("ADDR"@, 2) + tdf_byte_list("VALU"@, address_bytes())
            + tdf_str("BPS"@, ""@) + tdf_str("CTY"@, ""@) + tdf_var_int_list_empty("CVAR"@)
            + tdf_int_map("DMAP"@, data_map()) + tdf_u32("HWFG"@, 0) + tdf_str("ISP"@, ""@)
            + quality_bytes() + tdf_str("TZ"@, ""@) + tdf_u32("UATT"@, 0) + tdf_object_id(
            "ULST"@,
            30722,
            2,
            88123840,
        ) + seq![0u8] + tdf_u32("SUBS"@, 1) + tdf_u32("USID"@, self.user.persona_id)
    }

    fn serialize(&self, w: &mut Vec<u8>) {
        proof {
            lemma_session_tags();
        }
        let ghost start = w@;
        let dmap: Vec<(i32, i32)> = vec![(2013396993i32, 0i32)];
        assert(dmap@ =~= data_map());
        let address = address_value();
        tag_group(w, "DATA");
        tag_union_start(w, "ADDR", 2);
        tag_byte_list(w, "VALU", &address);
        tag_str(w, "BPS", "");
        tag_str(w, "CTY", "");
        tag_var_int_list_empty(w, "CVAR");
        tag_int_map(w, "DMAP", dmap.as_slice());
        tag_u32(w, "HWFG", 0);
        tag_str(w, "ISP", "");
        write_quality(w);
        tag_str(w, "TZ", "");
        tag_u32(w, "UATT", 0);
        tag_object_id(w, "ULST", 30722, 2, 88123840);
        tag_group_end(w);
        tag_u32(w, "SUBS", 1);
        tag_u32(w, "USID", self.user.persona_id);
        assert(w@ =~= start + self.encoded());
    }
}

/// An `UpdateHardwareFlags` notification for `user` carries, in this order:
/// zero `1CON`, location 1920292161, the persona id as `BUID`, the fixed
/// group id, the user name, zero `FRST`, key "0", the fixed last and login
/// times, the masked mail address, the namespace "cem_ea_id", the persona
/// id as `PID`, platform 4, the user id as `UID`, user type 0 and the user
/// id as `XREF`.
pub proof fn lemma_hardware_flags_fields(user: Arc<User>)
    ensures
        (UpdateHardwareFlags { user }).encoded() == tdf_zero("1CON"@) + tdf_u32("ALOC"@, 1920292161)
            + tdf_u32("BUID"@, user.persona_id) + tdf_object_id("CGID"@, 30722, 2, 88123840)
            + tdf_str("DSNM"@, user.username@) + tdf_zero("FRST"@) + tdf_str("KEY"@, "0"@)
            + tdf_u32("LAST"@, 1700769152) + tdf_u32("LLOG"@, 1700769258) + tdf_str(
            "MAIL"@,
            "******@beatrevival.me"@,
        ) + tdf_str("NASP"@, "cem_ea_id"@) + tdf_u32("PID"@, user.persona_id) + tdf_u8("PLAT"@, 4)
            + tdf_u32("UID"@, user.user_id) + tdf_u8("USTP"@, 0) + tdf_u32("XREF"@, user.user_id),
{
}

/// An extended data attribute notification holds flags 3 and the persona
/// id.
pub proof fn lemma_extended_attribute_fields(user: Arc<User>)
    ensures
        (UpdateExtendedDataAttribute { user }).encoded() == tdf_u8("FLGS"@, 3) + tdf_u32(
            "ID"@,
            user.persona_id,
        ),
{
}

/// An extended session data notification is a `DATA` group: address union
/// variant 0 holding an empty `BPS` string, empty country, empty `CVAR`,
/// the map {2013396993: 0}, zero hardware flags, empty ISP, a `QDAT` group
/// of five zero figures, empty time zone, zero `UATT`, the user list
/// [30722, 2, 88123840], and a `USER` group (user id as `AID` and `EXID`,
/// location 1920292161, empty blob, persona id as `ID` and `ORIG`, name,
/// namespace "cem_ea_id", zero `PIDI`).
pub proof fn lemma_extended_data_fields(user: Arc<User>)
    ensures
        (UserSessionExtendedData { user }).encoded() == tdf_group("DATA"@) + tdf_union_start(
            "ADDR"@,
            0,
        ) + tdf_str("BPS"@, ""@) + tdf_str("CTY"@, ""@) + tdf_var_int_list_empty("CVAR"@)
            + tdf_int_map("DMAP"@, seq![(2013396993i32, 0i32)]) + tdf_u32("HWFG"@, 0) + tdf_str(
            "ISP"@,
            ""@,
        ) + tdf_group("QDAT"@) + tdf_u32("BWHR"@, 0) + tdf_u32("DBPS"@, 0) + tdf_u32("NAHR"@, 0)
            + tdf_u32("NATT"@, 0) + tdf_u32("UBPS"@, 0) + seq![0u8] + tdf_str("TZ"@, ""@) + tdf_u32(
            "UATT"@,
            0,
        ) + tdf_var_int_list("ULST"@, seq![30722u64, 2u64, 88123840u64]) + tdf_group("USER"@)
            + tdf_u32("AID"@, user.user_id) + tdf_u32("ALOC"@, 1920292161) + tdf_blob_empty(
            "EXBB"@,
        ) + tdf_u32("EXID"@, user.user_id) + tdf_u32("ID"@, user.persona_id) + tdf_str(
            "NAME"@,
            user.username@,
        ) + tdf_str("NASP"@, "cem_ea_id"@) + tdf_u32("ORIG"@, user.persona_id) + tdf_u32(
            "PIDI"@,
            0,
        ) + seq![0u8] + seq![0u8],
{
    assert((UserSessionExtendedData { user }).encoded() =~= tdf_group("DATA"@) + tdf_union_start(
        "ADDR"@,
        0,
    ) + tdf_str("BPS"@, ""@) + tdf_str("CTY"@, ""@) + tdf_var_int_list_empty("CVAR"@)
        + tdf_int_map("DMAP"@, seq![(2013396993i32, 0i32)]) + tdf_u32("HWFG"@, 0) + tdf_str(
        "ISP"@,
        ""@,
    ) + tdf_group("QDAT"@) + tdf_u32("BWHR"@, 0) + tdf_u32("DBPS"@, 0) + tdf_u32("NAHR"@, 0)
        + tdf_u32("NATT"@, 0) + tdf_u32("UBPS"@, 0) + seq![0u8] + tdf_str("TZ"@, ""@) + tdf_u32(
        "UATT"@,
        0,
    ) + tdf_var_int_list("ULST"@, seq![30722u64, 2u64, 88123840u64]) + tdf_group("USER"@)
        + tdf_u32("AID"@, user.user_id) + tdf_u32("ALOC"@, 1920292161) + tdf_blob_empty(
        "EXBB"@,
    ) + tdf_u32("EXID"@, user.user_id) + tdf_u32("ID"@, user.persona_id) + tdf_str(
        "NAME"@,
        user.username@,
    ) + tdf_str("NASP"@, "cem_ea_id"@) + tdf_u32("ORIG"@, user.persona_id) + tdf_u32(
        "PIDI"@,
        0,
    ) + seq![0u8] + seq![0u8]);
}

/// A session key validation is a `DATA` group: address union variant 2
/// whose `VALU` is the list of bytes of an external address group (IP
/// 2130706433, zero MAC id, port 3659), an internal address group (IP
/// 3232235776, zero MAC id, port 3659) and MAC id 1129238128; empty `BPS`
/// and country, empty `CVAR`, the map {2013396993: 0}, zero hardware flags,
/// empty ISP, a `QDAT` group of five zero figures, empty time zone, zero
/// `UATT`, the user list as object id (30722, 2, 88123840); then one
/// subscription and the persona id as `USID`.
pub proof fn lemma_validate_session_key_fields(user: Arc<User>)
    ensures
        (ValidateSessionKey { user }).encoded() == tdf_group("DATA"@) + tdf_union_start("ADDR"@, 2)
            + tdf_byte_list(
            "VALU"@,
            tdf_group("EXIP"@) + tdf_u32("IP"@, 2130706433) + tdf_u32("MACI"@, 0) + tdf_u16(
                "PORT"@,
                3659,
            ) + seq![0u8] + tdf_group("INIP"@) + tdf_u32("IP"@, 3232235776) + tdf_u32("MACI"@, 0)
                + tdf_u16("PORT"@, 3659) + seq![0u8] + tdf_u32("MACI"@, 1129238128),
        ) + tdf_str("BPS"@, ""@) + tdf_str("CTY"@, ""@) + tdf_var_int_list_empty("CVAR"@)
            + tdf_int_map("DMAP"@, seq![(2013396993i32, 0i32)]) + tdf_u32("HWFG"@, 0) + tdf_str(
            "ISP"@,
            ""@,
        ) + tdf_group("QDAT"@) + tdf_u32("BWHR"@, 0) + tdf_u32("DBPS"@, 0) + tdf_u32("NAHR"@, 0)
            + tdf_u32("NATT"@, 0) + tdf_u32("UBPS"@, 0) + seq![0u8] + tdf_str("TZ"@, ""@) + tdf_u32(
            "UATT"@,
            0,
        ) + tdf_object_id("ULST"@, 30722, 2, 88123840) + seq![0u8] + tdf_u32("SUBS"@, 1)
            + tdf_u32("USID"@, user.persona_id),
{
    assert((ValidateSessionKey { user }).encoded() =~= tdf_group("DATA"@) + tdf_union_start("ADDR"@, 2)
        + tdf_byte_list(
        "VALU"@,
        tdf_group("EXIP"@) + tdf_u32("IP"@, 2130706433) + tdf_u32("MACI"@, 0) + tdf_u16(
            "PORT"@,
            3659,
        ) + seq![0u8] + tdf_group("INIP"@) + tdf_u32("IP"@, 3232235776) + tdf_u32("MACI"@, 0)
            + tdf_u16("PORT"@, 3659) + seq![0u8] + tdf_u32("MACI"@, 1129238128),
    ) + tdf_str("BPS"@, ""@) + tdf_str("CTY"@, ""@) + tdf_var_int_list_empty("CVAR"@)
        + tdf_int_map("DMAP"@, seq![(2013396993i32, 0i32)]) + tdf_u32("HWFG"@, 0) + tdf_str(
        "ISP"@,
        ""@,
    ) + tdf_group("QDAT"@) + tdf_u32("BWHR"@, 0) + tdf_u32("DBPS"@, 0) + tdf_u32("NAHR"@, 0)
        + tdf_u32("NATT"@, 0) + tdf_u32("UBPS"@, 0) + seq![0u8] + tdf_str("TZ"@, ""@) + tdf_u32(
        "UATT"@,
        0,
    ) + tdf_object_id("ULST"@, 30722, 2, 88123840) + seq![0u8] + tdf_u32("SUBS"@, 1)
        + tdf_u32("USID"@, user.persona_id));
}

} // verus!
