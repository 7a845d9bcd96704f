//! The association lists (friends, follows, blocks) of a player.
use crate::tdf_out::{
    tag_group, tag_group_end, tag_list_start, tag_object_id, tag_str, tag_u32, tag_u8, tag_zero,
    tdf_group, tdf_list_start, tdf_object_id, tdf_str, tdf_u32, tdf_u8, tdf_zero, valid_tag,
    ElementType, TdfEncode,
};
use vstd::prelude::*;

verus! {

/// Description of one association list.
pub struct AssociationList {
    pub name: &'static str,
    pub ty: u8,
    pub flgs: u8,
    pub lms: u32,
    pub pnam: &'static str,
    pub prid: u8,
    pub prms: u32,
}

proof fn lemma_list_tags()
    ensures
        valid_tag("INFO"),
        valid_tag("BOID"),
        valid_tag("FLGS"),
        valid_tag("LID"),
        valid_tag("LNM"),
        valid_tag("TYPE"),
        valid_tag("LMS"),
        valid_tag("PNAM"),
        valid_tag("PRID"),
        valid_tag("PRMS"),
        valid_tag("OFRC"),
        valid_tag("TOCT"),
        valid_tag("LMAP"),
{
    reveal_strlit("INFO");
    reveal_strlit("BOID");
    reveal_strlit("FLGS");
    reveal_strlit("LID");
    reveal_strlit("LNM");
    reveal_strlit("TYPE");
    reveal_strlit("LMS");
    reveal_strlit("PNAM");
    reveal_strlit("PRID");
    reveal_strlit("PRMS");
    reveal_strlit("OFRC");
    reveal_strlit("TOCT");
    reveal_strlit("LMAP");
}

/// The friend list.
pub open spec fn spec_friend_list() -> AssociationList {
    AssociationList { name: "friendList", ty: 1, flgs: 4, lms: 2000, pnam: "", prid: 0, prms: 0 }
}

/// The follow list.
pub open spec fn spec_follow_list() -> AssociationList {
    AssociationList {
        name: "followList",
        ty: 5,
        flgs: 2,
        lms: 200,
        pnam: "followerList",
        prid: 6,
        prms: 50000,
    }
}

/// The communication block list.
pub open spec fn spec_block_list() -> AssociationList {
    AssociationList {
        name: "communicationBlockList",
        ty: 4,
        flgs: 0,
        lms: 100,
        pnam: "",
        prid: 0,
        prms: 0,
    }
}

impl AssociationList {
    /// The friend list: type 1, flags 4, at most 2000 members.
    pub fn friend_list() -> (l: Self)
        ensures
            l == spec_friend_list(),
            l.name@ == "friendList"@,
            l.ty == 1,
            l.flgs == 4,
            l.lms == 2000,
            l.pnam@ == ""@,
            l.prid == 0,
            l.prms == 0,
    {
        Self { name: "friendList", ty: 1, flgs: 4, lms: 2000, pnam: "", prid: 0, prms: 0 }
    }

    /// The follow list: type 5, flags 2, at most 200 members, paired with the
    /// follower list (type 6, at most 50000 members).
    pub fn follow_list() -> (l: Self)
        ensures
            l == spec_follow_list(),
            l.name@ == "followList"@,
            l.ty == 5,
            l.flgs == 2,
            l.lms == 200,
            l.pnam@ == "followerList"@,
            l.prid == 6,
            l.prms == 50000,
    {
        Self {
            name: "followList",
            ty: 5,
            flgs: 2,
            lms: 200,
            pnam: "followerList",
            prid: 6,
            prms: 50000,
        }
    }

    /// The communication block list: type 4, no flags, at most 100 members.
    pub fn block_list() -> (l: Self)
        ensures
            l == spec_block_list(),
            l.name@ == "communicationBlockList"@,
            l.ty == 4,
            l.flgs == 0,
            l.lms == 100,
            l.pnam@ == ""@,
            l.prid == 0,
            l.prms == 0,
    {
        Self {
            name: "communicationBlockList",
            ty: 4,
            flgs: 0,
            lms: 100,
            pnam: "",
            prid: 0,
            prms: 0,
        }
    }
}

impl TdfEncode for AssociationList {
    /// An `INFO` group (object id, flags, an `LID` group with name and type,
    /// limits and pair), two zero counters, and the end of the list entry.
    open spec fn encoded(&self) -> Seq<u8> {
        tdf_group("INFO"@) + tdf_object_id("BOID"@, 25, self.ty as u16, 1011786733) + tdf_u8(
            "FLGS"@,
            self.flgs,
        ) + tdf_group("LID"@) + tdf_str("LNM"@, self.name@) + tdf_u8("TYPE"@, self.ty) + seq![0u8]
            + tdf_u32("LMS"@, self.lms) + tdf_str("PNAM"@, self.pnam@) + tdf_u8("PRID"@, self.prid)
            + tdf_u32("PRMS"@, self.prms) + seq![0u8] + tdf_zero("OFRC"@) + tdf_zero("TOCT"@)
            + seq![0u8]
    }

    fn serialize(&self, w: &mut Vec<u8>) {
        proof {
            lemma_list_tags();
        }
        let ghost start = w@;
        tag_group(w, "INFO");
        tag_object_id(w, "BOID", 25, self.ty as u16, 1011786733);
        tag_u8(w, "FLGS", self.flgs);
        tag_group(w, "LID");
        tag_str(w, "LNM", self.name);
        tag_u8(w, "TYPE", self.ty);
        tag_group_end(w);
        tag_u32(w, "LMS", self.lms);
        tag_str(w, "PNAM", self.pnam);
        tag_u8(w, "PRID", self.prid);
        tag_u32(w, "PRMS", self.prms);
        tag_group_end(w);
        tag_zero(w, "OFRC");
        tag_zero(w, "TOCT");
        tag_group_end(w);
        assert(w@ =~= start + self.encoded());
    }
}

/// The concatenated encodings of a sequence of values, first to last.
pub open spec fn encode_all<T: TdfEncode>(items: Seq<T>) -> Seq<u8>
    decreases items.len(),
{
    if items.len() == 0 {
        Seq::empty()
    } else {
        encode_all(items.drop_last()) + items.last().encoded()
    }
}

/// Appends `tdf_list_start(tag, Group, items.len())` followed by the
/// encoding of every item.
pub(crate) fn write_group_list<T: TdfEncode>(w: &mut Vec<u8>, tag: &str, items: &Vec<T>)
    requires
        valid_tag(tag),
    ensures
        final(w)@ == old(w)@ + tdf_list_start(tag@, ElementType::Group, items.len()) + encode_all(
            items@,
        ),
{
    let ghost start = w@;
    tag_list_start(w, tag, ElementType::Group, items.len());
    let ghost head = w@;
    let mut i: usize = 0;
    while i < items.len()
        invariant
            0 <= i <= items.len(),
            w@ == head + encode_all(items@.take(i as int)),
            head == start + tdf_list_start(tag@, ElementType::Group, items.len()),
        decreases items.len() - i,
    {
        items[i].serialize(w);
        assert(items@.take(i + 1).drop_last() =~= items@.take(i as int));
        i = i + 1;
        assert(w@ =~= head + encode_all(items@.take(i as int)));
    }
    assert(items@.take(items.len() as int) =~= items@);
}

/// The response to a request for the association lists.
pub struct GetListsResponse {
    pub list: Vec<AssociationList>,
}

impl TdfEncode for GetListsResponse {
    /// An `LMAP` list of groups, one per association list.
    open spec fn encoded(&self) -> Seq<u8> {
        tdf_list_start("LMAP"@, ElementType::Group, self.list.len()) + encode_all(self.list@)
    }

    fn serialize(&self, w: &mut Vec<u8>) {
        proof {
            lemma_list_tags();
        }
        write_group_list(w, "LMAP", &self.list);
    }
}

/// The three association lists are the friend list (type 1, flags 4, up to
/// 2000 members), the follow list (type 5, flags 2, up to 200 members,
/// paired with the follower list of type 6 and up to 50000 members) and the
/// communication block list (type 4, no flags, up to 100 members): their
/// types are pairwise distinct.
pub proof fn lemma_association_list_values()
    ensures
        spec_friend_list().name@ == "friendList"@,
        spec_friend_list().ty == 1,
        spec_friend_list().flgs == 4,
        spec_friend_list().lms == 2000,
        spec_friend_list().pnam@ == ""@,
        spec_friend_list().prid == 0,
        spec_friend_list().prms == 0,
        spec_follow_list().name@ == "followList"@,
        spec_follow_list().ty == 5,
        spec_follow_list().flgs == 2,
        spec_follow_list().lms == 200,
        spec_follow_list().pnam@ == "followerList"@,
        spec_follow_list().prid == 6,
        spec_follow_list().prms == 50000,
        spec_block_list().name@ == "communicationBlockList"@,
        spec_block_list().ty == 4,
        spec_block_list().flgs == 0,
        spec_block_list().lms == 100,
        spec_block_list().pnam@ == ""@,
        spec_block_list().prid == 0,
        spec_block_list().prms == 0,
        spec_friend_list().ty != spec_follow_list().ty,
        spec_friend_list().ty != spec_block_list().ty,
        spec_follow_list().ty != spec_block_list().ty,
{
}

/// The association lists that every player has: friends, follows and blocks,
/// in that order.
pub fn association_lists() -> (v: Vec<AssociationList>)
    ensures
        v@ == seq![spec_friend_list(), spec_follow_list(), spec_block_list()],
        v.len() == 3,
        v[0].name@ == "friendList"@ && v[0].ty == 1,
        v[1].name@ == "followList"@ && v[1].ty == 5,
        v[2].name@ == "communicationBlockList"@ && v[2].ty == 4,
{
    vec![AssociationList::friend_list(), AssociationList::follow_list(), AssociationList::block_list()]
}

/// An association list entry is an `INFO` group holding the object id of
/// component 25 with the list's type and id 1011786733, the flags, an `LID`
/// group with the name and type, the member limit, the paired list's name,
/// type and limit; then two zero counters and the end of the entry.
pub proof fn lemma_association_list_fields(l: AssociationList)
    ensures
        l.encoded() == tdf_group("INFO"@) + tdf_object_id("BOID"@, 25, l.ty as u16, 1011786733)
            + tdf_u8("FLGS"@, l.flgs) + tdf_group("LID"@) + tdf_str("LNM"@, l.name@) + tdf_u8(
            "TYPE"@,
            l.ty,
        ) + seq![0u8] + tdf_u32("LMS"@, l.lms) + tdf_str("PNAM"@, l.pnam@) + tdf_u8(
            "PRID"@,
            l.prid,
        ) + tdf_u32("PRMS"@, l.prms) + seq![0u8] + tdf_zero("OFRC"@) + tdf_zero("TOCT"@)
            + seq![0u8],
{
}

/// The association lists response is an `LMAP` list of groups with one entry
/// per list, in order.
pub proof fn lemma_lists_response_fields(r: GetListsResponse)
    ensures
        r.encoded() == tdf_list_start("LMAP"@, ElementType::Group, r.list.len()) + encode_all(
            r.list@,
        ),
{
}

} // verus!
