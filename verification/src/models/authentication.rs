//! Login request and response, and the entitlements of an account.
use crate::packet::Packet;
use crate::session::User;
use crate::tdf_in::{check_reader_bounds, read_string_field, tdf_find_string, tdf_reader_bounded};
use crate::tdf_out::{
    tag_group, tag_group_end, tag_str, tag_str_empty, tag_u32, tag_u64, tag_u8, tag_zero, tdf_group,
    tdf_list_start, tdf_str, tdf_str_empty, tdf_u32, tdf_u64, tdf_u8, tdf_zero, valid_tag,
    ElementType, TdfEncode,
};
use crate::models::association_lists::{encode_all, write_group_list};
use std::sync::Arc;
use vstd::prelude::*;

verus! {

proof fn lemma_auth_tags()
    ensures
        valid_tag("AUTH"),
        valid_tag("CNTX"),
        valid_tag("ERRC"),
        valid_tag("SKEY"),
        valid_tag("ANON"),
        valid_tag("NTOS"),
        valid_tag("SESS"),
        valid_tag("1CON"),
        valid_tag("BUID"),
        valid_tag("FRST"),
        valid_tag("KEY"),
        valid_tag("LLOG"),
        valid_tag("MAIL"),
        valid_tag("PDTL"),
        valid_tag("DSNM"),
        valid_tag("LAST"),
        valid_tag("PID"),
        valid_tag("PLAT"),
        valid_tag("STAS"),
        valid_tag("XREF"),
        valid_tag("UID"),
        valid_tag("SPAM"),
        valid_tag("UNDR"),
        valid_tag("DEVI"),
        valid_tag("GDAY"),
        valid_tag("GNAM"),
        valid_tag("ID"),
        valid_tag("ISCO"),
        valid_tag("PJID"),
        valid_tag("PRCA"),
        valid_tag("PRID"),
        valid_tag("STAT"),
        valid_tag("STRC"),
        valid_tag("TAG"),
        valid_tag("TDAY"),
        valid_tag("TYPE"),
        valid_tag("UCNT"),
        valid_tag("VER"),
        valid_tag("NLST"),
{
    reveal_strlit("AUTH");
    reveal_strlit("CNTX");
    reveal_strlit("ERRC");
    reveal_strlit("SKEY");
    reveal_strlit("ANON");
    reveal_strlit("NTOS");
    reveal_strlit("SESS");
    reveal_strlit("1CON");
    reveal_strlit("BUID");
    reveal_strlit("FRST");
    reveal_strlit("KEY");
    reveal_strlit("LLOG");
    reveal_strlit("MAIL");
    reveal_strlit("PDTL");
    reveal_strlit("DSNM");
    reveal_strlit("LAST");
    reveal_strlit("PID");
    reveal_strlit("PLAT");
    reveal_strlit("STAS");
    reveal_strlit("XREF");
    reveal_strlit("UID");
    reveal_strlit("SPAM");
    reveal_strlit("UNDR");
    reveal_strlit("DEVI");
    reveal_strlit("GDAY");
    reveal_strlit("GNAM");
    reveal_strlit("ID");
    reveal_strlit("ISCO");
    reveal_strlit("PJID");
    reveal_strlit("PRCA");
    reveal_strlit("PRID");
    reveal_strlit("STAT");
    reveal_strlit("STRC");
    reveal_strlit("TAG");
    reveal_strlit("TDAY");
    reveal_strlit("TYPE");
    reveal_strlit("UCNT");
    reveal_strlit("VER");
    reveal_strlit("NLST");
}

/// A login request: the OAuth access token in field `AUTH`.
#[derive(Debug)]
pub struct AuthRequest {
    pub token: String,
}

/// Why a login request could not be read.
#[derive(Debug)]
pub enum AuthRequestError {
    /// The contents are outside the bounds within which they are handed to
    /// the `tdf` reader (see `tdf_reader_bounded`).
    Unbounded,
    /// The `tdf` reader found no readable `AUTH` string.
    Decode(tdf::DecodeError),
}

impl AuthRequest {
    /// Reads a login request from the contents of `packet`.
    pub fn deserialize(packet: &Packet) -> (r: Result<AuthRequest, AuthRequestError>)
        ensures
            !tdf_reader_bounded(packet@.contents) ==> r matches Err(AuthRequestError::Unbounded),
            tdf_reader_bounded(packet@.contents) ==> match r {
                Ok(req) => tdf_find_string(packet@.contents, "AUTH"@) == Some(req.token@),
                Err(e) => e is Decode && tdf_find_string(packet@.contents, "AUTH"@) is None,
            },
    {
        proof {
            lemma_auth_tags();
        }
        if !check_reader_bounds(&packet.contents) {
            return Err(AuthRequestError::Unbounded);
        }
        match read_string_field(&packet.contents, "AUTH") {
            Ok(token) => Ok(AuthRequest { token }),
            Err(e) => Err(AuthRequestError::Decode(e)),
        }
    }
}

/// The response to a successful login.
pub struct AuthResponse {
    pub user: Arc<User>,
}

/// The `PDTL` group of a login response: the persona of `u`.
pub open spec fn persona_details_bytes(u: User) -> Seq<u8> {
    tdf_group("PDTL"@) + tdf_str("DSNM"@, u.username@) + tdf_zero("LAST"@) + tdf_u32(
        "PID"@,
        u.persona_id,
    ) + tdf_u8("PLAT"@, 4) + tdf_zero("STAS"@) + tdf_u32("XREF"@, u.user_id) + seq![0u8]
}

/// The `SESS` group of a login response for `u`.
pub open spec fn session_bytes(u: User) -> Seq<u8> {
    tdf_group("SESS"@) + tdf_zero("1CON"@) + tdf_u32("BUID"@, u.persona_id) + tdf_zero("FRST"@)
        + tdf_str("KEY"@, "0"@) + tdf_u32("LLOG"@, 1700769352) + tdf_str(
        "MAIL"@,
        "******@beatrevival.me"@,
    ) + persona_details_bytes(u) + tdf_u32("UID"@, u.user_id) + seq![0u8]
}

fn write_persona_details(w: &mut Vec<u8>, u: &User)
    ensures
        final(w)@ == old(w)@ + persona_details_bytes(*u),
{
    proof {
        lemma_auth_tags();
    }
    let ghost start = w@;
    tag_group(w, "PDTL");
    tag_str(w, "DSNM", u.username.as_str());
    tag_zero(w, "LAST");
    tag_u32(w, "PID", u.persona_id);
    tag_u8(w, "PLAT", 4);
    tag_zero(w, "STAS");
    tag_u32(w, "XREF", u.user_id);
    tag_group_end(w);
    assert(w@ =~= start + persona_details_bytes(*u));
}

fn write_session(w: &mut Vec<u8>, u: &User)
    ensures
        final(w)@ == old(w)@ + session_bytes(*u),
{
    proof {
        lemma_auth_tags();
    }
    let ghost start = w@;
    tag_group(w, "SESS");
    tag_zero(w, "1CON");
    tag_u32(w, "BUID", u.persona_id);
    tag_zero(w, "FRST");
    tag_str(w, "KEY", "0");
    tag_u32(w, "LLOG", 1700769352);
    tag_str(w, "MAIL", "******@beatrevival.me");
    write_persona_details(w, u);
    tag_u32(w, "UID", u.user_id);
    tag_group_end(w);
    assert(w@ =~= start + session_bytes(*u));
}

impl TdfEncode for AuthResponse {
    /// Zero context, error code and flags, session key "0", the `SESS`
    /// group of the user, and two zero flags.
    open spec fn encoded(&self) -> Seq<u8> {
        tdf_zero("CNTX"@) + tdf_zero("ERRC"@) + tdf_str("SKEY"@, "0"@) + tdf_zero("ANON"@) + tdf_zero(
            "NTOS"@,
        ) + session_bytes(*self.user) + tdf_zero("SPAM"@) + tdf_zero("UNDR"@)
    }

    fn serialize(&self, w: &mut Vec<u8>) {
        proof {
            lemma_auth_tags();
        }
        let ghost start = w@;
        tag_zero(w, "CNTX");
        tag_zero(w, "ERRC");
        tag_str(w, "SKEY", "0");
        tag_zero(w, "ANON");
        tag_zero(w, "NTOS");
        write_session(w, &self.user);
        tag_zero(w, "SPAM");
        tag_zero(w, "UNDR");
        assert(w@ =~= start + self.encoded());
    }
}

/// One entitlement of an account.
pub struct Entitlement {
    pub name: &'static str,
    pub id: u64,
    pub pjid: &'static str,
    pub prca: u8,
    pub prid: &'static str,
    pub tag: &'static str,
    pub ty: u8,
}

impl Entitlement {
    /// A PC entitlement: group name `MECATPC`, type 1.
    pub fn pc(id: u64, pjid: &'static str, prca: u8, prid: &'static str, tag: &'static str) -> (e:
        Self)
        ensures
            e == (Entitlement { name: "MECATPC", id, pjid, prca, prid, tag, ty: 1 }),
    {
        Self { name: "MECATPC", id, pjid, prca, prid, tag, ty: 1 }
    }
}

impl TdfEncode for Entitlement {
    /// The fields of one entitlement, with the fixed grant date, status 1
    /// and zero counters, then the end of the list entry.
    open spec fn encoded(&self) -> Seq<u8> {
        tdf_str_empty("DEVI"@) + tdf_str("GDAY"@, "2016-06-12T14:35Z"@) + tdf_str(
            "GNAM"@,
            self.name@,
        ) + tdf_u64("ID"@, self.id) + tdf_u8("ISCO"@, 0) + tdf_u8("PID"@, 0) + tdf_str(
            "PJID"@,
            self.pjid@,
        ) + tdf_u8("PRCA"@, self.prca) + tdf_str("PRID"@, self.prid@) + tdf_u8("STAT"@, 1) + tdf_u8(
            "STRC"@,
            0,
        ) + tdf_str("TAG"@, self.tag@) + tdf_str_empty("TDAY"@) + tdf_u8("TYPE"@, self.ty) + tdf_u8(
            "UCNT"@,
            0,
        ) + tdf_u8("VER"@, 0) + seq![0u8]
    }

    fn serialize(&self, w: &mut Vec<u8>) {
        proof {
            lemma_auth_tags();
        }
        let ghost start = w@;
        tag_str_empty(w, "DEVI");
        tag_str(w, "GDAY", "2016-06-12T14:35Z");
        tag_str(w, "GNAM", self.name);
        tag_u64(w, "ID", self.id);
        tag_u8(w, "ISCO", 0);
        tag_u8(w, "PID", 0);
        tag_str(w, "PJID", self.pjid);
        tag_u8(w, "PRCA", self.prca);
        tag_str(w, "PRID", self.prid);
        tag_u8(w, "STAT", 1);
        tag_u8(w, "STRC", 0);
        tag_str(w, "TAG", self.tag);
        tag_str_empty(w, "TDAY");
        tag_u8(w, "TYPE", self.ty);
        tag_u8(w, "UCNT", 0);
        tag_u8(w, "VER", 0);
        tag_group_end(w);
        assert(w@ =~= start + self.encoded());
    }
}

/// The response to a request for the entitlements of an account.
pub struct ListEntitlementsResponse {
    pub list: Vec<Entitlement>,
}

impl TdfEncode for ListEntitlementsResponse {
    /// An `NLST` list of groups, one per entitlement.
    open spec fn encoded(&self) -> Seq<u8> {
        tdf_list_start("NLST"@, ElementType::Group, self.list.len()) + encode_all(self.list@)
    }

    fn serialize(&self, w: &mut Vec<u8>) {
        proof {
            lemma_auth_tags();
        }
        write_group_list(w, "NLST", &self.list);
    }
}

/// The online access entitlement of the game.
pub open spec fn spec_online_access() -> Entitlement {
    Entitlement {
        name: "MECATPC",
        id: 345193323,
        pjid: "308903",
        prca: 2,
        prid: "Origin.OFR.50.0001000",
        tag: "ONLINE_ACCESS",
        ty: 1,
    }
}

/// The online access entitlement is the PC entitlement `MECATPC` with id
/// 345193323 of project 308903, product category 2, for the offer
/// `Origin.OFR.50.0001000`, tagged `ONLINE_ACCESS`.
pub proof fn lemma_online_access_values()
    ensures
        spec_online_access().name@ == "MECATPC"@,
        spec_online_access().id == 345193323,
        spec_online_access().pjid@ == "308903"@,
        spec_online_access().prca == 2,
        spec_online_access().prid@ == "Origin.OFR.50.0001000"@,
        spec_online_access().tag@ == "ONLINE_ACCESS"@,
        spec_online_access().ty == 1,
{
}

/// The entitlements that every account has: online access to the game.
pub fn entitlements() -> (v: Vec<Entitlement>)
    ensures
        v@ == seq![spec_online_access()],
        v.len() == 1,
        v[0].name@ == "MECATPC"@,
        v[0].id == 345193323,
        v[0].pjid@ == "308903"@,
        v[0].prca == 2,
        v[0].prid@ == "Origin.OFR.50.0001000"@,
        v[0].tag@ == "ONLINE_ACCESS"@,
        v[0].ty == 1,
{
    vec![Entitlement::pc(345193323, "308903", 2, "Origin.OFR.50.0001000", "ONLINE_ACCESS")]
}

/// A login response holds zero context, error code, anonymity and terms
/// flags, session key "0", and a `SESS` group with the persona id as
/// `BUID`, key "0", the last login time, the masked mail address, a `PDTL`
/// group (user name, persona id, platform 4, user id) and the user id as
/// `UID`; then zero spam and underage flags.
pub proof fn lemma_auth_response_fields(r: AuthResponse)
    ensures
        r.encoded() == tdf_zero("CNTX"@) + tdf_zero("ERRC"@) + tdf_str("SKEY"@, "0"@) + tdf_zero(
            "ANON"@,
        ) + tdf_zero("NTOS"@) + tdf_group("SESS"@) + tdf_zero("1CON"@) + tdf_u32(
            "BUID"@,
            r.user.persona_id,
        ) + tdf_zero("FRST"@) + tdf_str("KEY"@, "0"@) + tdf_u32("LLOG"@, 1700769352) + tdf_str(
            "MAIL"@,
            "******@beatrevival.me"@,
        ) + tdf_group("PDTL"@) + tdf_str("DSNM"@, r.user.username@) + tdf_zero("LAST"@) + tdf_u32(
            "PID"@,
            r.user.persona_id,
        ) + tdf_u8("PLAT"@, 4) + tdf_zero("STAS"@) + tdf_u32("XREF"@, r.user.user_id) + seq![0u8]
            + tdf_u32("UID"@, r.user.user_id) + seq![0u8] + tdf_zero("SPAM"@) + tdf_zero("UNDR"@),
{
    assert(r.encoded() =~= tdf_zero("CNTX"@) + tdf_zero("ERRC"@) + tdf_str("SKEY"@, "0"@) + tdf_zero(
        "ANON"@,
    ) + tdf_zero("NTOS"@) + tdf_group("SESS"@) + tdf_zero("1CON"@) + tdf_u32(
        "BUID"@,
        r.user.persona_id,
    ) + tdf_zero("FRST"@) + tdf_str("KEY"@, "0"@) + tdf_u32("LLOG"@, 1700769352) + tdf_str(
        "MAIL"@,
        "******@beatrevival.me"@,
    ) + tdf_group("PDTL"@) + tdf_str("DSNM"@, r.user.username@) + tdf_zero("LAST"@) + tdf_u32(
        "PID"@,
        r.user.persona_id,
    ) + tdf_u8("PLAT"@, 4) + tdf_zero("STAS"@) + tdf_u32("XREF"@, r.user.user_id) + seq![0u8]
        + tdf_u32("UID"@, r.user.user_id) + seq![0u8] + tdf_zero("SPAM"@) + tdf_zero("UNDR"@));
}

/// An entitlement entry holds an empty device, the grant date
/// 2016-06-12T14:35Z, its group name and id, zero `ISCO` and `PID`, its
/// project, product category, product and tag, status 1, zero `STRC`, an
/// empty termination date, its type, zero use count and version; then the
/// end of the entry.
pub proof fn lemma_entitlement_fields(e: Entitlement)
    ensures
        e.encoded() == tdf_str_empty("DEVI"@) + tdf_str("GDAY"@, "2016-06-12T14:35Z"@) + tdf_str(
            "GNAM"@,
            e.name@,
        ) + tdf_u64("ID"@, e.id) + tdf_u8("ISCO"@, 0) + tdf_u8("PID"@, 0) + tdf_str(
            "PJID"@,
            e.pjid@,
        ) + tdf_u8("PRCA"@, e.prca) + tdf_str("PRID"@, e.prid@) + tdf_u8("STAT"@, 1) + tdf_u8(
            "STRC"@,
            0,
        ) + tdf_str("TAG"@, e.tag@) + tdf_str_empty("TDAY"@) + tdf_u8("TYPE"@, e.ty) + tdf_u8(
            "UCNT"@,
            0,
        ) + tdf_u8("VER"@, 0) + seq![0u8],
{
}

/// The entitlements response is an `NLST` list of groups with one entry per
/// entitlement, in order.
pub proof fn lemma_entitlements_response_fields(r: ListEntitlementsResponse)
    ensures
        r.encoded() == tdf_list_start("NLST"@, ElementType::Group, r.list.len()) + encode_all(
            r.list@,
        ),
{
}

} // verus!
