use vstd::prelude::*;
use crate::utils::error::{Error, Result};
use crate::utils::snowflakes::Snowflake;
use crate::utils::text::{decimal, lemma_parse_u64_of_decimal, parse_u64, parse_u64_spec, u64_to_string};
use crate::structures::channel::{Channel, ChannelTypes, Overwrite, OverwriteTypes};
use crate::structures::role::Role;
use crate::structures::server::Server;

verus! {

/// The union of every permission bit that is defined.
pub const ALL_PERMISSION_BITS: u64 = 0xffff;

pub const ADMINISTRATOR: u64 = 1;
pub const VIEW_CHANNEL: u64 = 2;
pub const SEND_MESSAGES: u64 = 4;
pub const READ_MESSAGE_HISTORY: u64 = 8;
pub const EMBED_LINKS: u64 = 16;
pub const UPLOAD_FILES: u64 = 32;
pub const MANAGE_SERVER: u64 = 64;
pub const MANAGE_CHANNELS: u64 = 128;
pub const MANAGE_MESSAGES: u64 = 256;
pub const MANAGE_ROLES: u64 = 512;
pub const MANAGE_INVITES: u64 = 1024;
pub const MANAGE_NICKNAMES: u64 = 2048;
pub const BAN_MEMBERS: u64 = 4096;
pub const KICK_MEMBERS: u64 = 8192;
pub const CHANGE_NICKNAME: u64 = 16384;
pub const INVITE_OTHERS: u64 = 32768;

/// A set of permission bits. Only the sixteen defined bits can ever be set.
#[derive(Clone, Copy, Debug, PartialEq, Eq, Structural, Hash)]
pub struct Permissions {
    bits: u64,
}

impl View for Permissions {
    type V = u64;

    closed spec fn view(&self) -> u64 {
        self.bits
    }
}

impl Permissions {
    #[verifier::type_invariant]
    closed spec fn only_known_bits(self) -> bool {
        self.bits <= ALL_PERMISSION_BITS
    }

    pub fn administrator() -> (p: Permissions)
        ensures
            p@ == ADMINISTRATOR,
    {
        Permissions { bits: ADMINISTRATOR }
    }

    pub fn view_channel() -> (p: Permissions)
        ensures
            p@ == VIEW_CHANNEL,
    {
        Permissions { bits: VIEW_CHANNEL }
    }

    pub fn send_messages() -> (p: Permissions)
        ensures
            p@ == SEND_MESSAGES,
    {
        Permissions { bits: SEND_MESSAGES }
    }

    pub fn read_message_history() -> (p: Permissions)
        ensures
            p@ == READ_MESSAGE_HISTORY,
    {
        Permissions { bits: READ_MESSAGE_HISTORY }
    }

    pub fn embed_links() -> (p: Permissions)
        ensures
            p@ == EMBED_LINKS,
    {
        Permissions { bits: EMBED_LINKS }
    }

    pub fn upload_files() -> (p: Permissions)
        ensures
            p@ == UPLOAD_FILES,
    {
        Permissions { bits: UPLOAD_FILES }
    }

    pub fn manage_server() -> (p: Permissions)
        ensures
            p@ == MANAGE_SERVER,
    {
        Permissions { bits: MANAGE_SERVER }
    }

    pub fn manage_channels() -> (p: Permissions)
        ensures
            p@ == MANAGE_CHANNELS,
    {
        Permissions { bits: MANAGE_CHANNELS }
    }

    pub fn manage_messages() -> (p: Permissions)
        ensures
            p@ == MANAGE_MESSAGES,
    {
        Permissions { bits: MANAGE_MESSAGES }
    }

    pub fn manage_roles() -> (p: Permissions)
        ensures
            p@ == MANAGE_ROLES,
    {
        Permissions { bits: MANAGE_ROLES }
    }

    pub fn manage_invites() -> (p: Permissions)
        ensures
            p@ == MANAGE_INVITES,
    {
        Permissions { bits: MANAGE_INVITES }
    }

    pub fn manage_nicknames() -> (p: Permissions)
        ensures
            p@ == MANAGE_NICKNAMES,
    {
        Permissions { bits: MANAGE_NICKNAMES }
    }

    pub fn ban_members() -> (p: Permissions)
        ensures
            p@ == BAN_MEMBERS,
    {
        Permissions { bits: BAN_MEMBERS }
    }

    pub fn kick_members() -> (p: Permissions)
        ensures
            p@ == KICK_MEMBERS,
    {
        Permissions { bits: KICK_MEMBERS }
    }

    pub fn change_nickname() -> (p: Permissions)
        ensures
            p@ == CHANGE_NICKNAME,
    {
        Permissions { bits: CHANGE_NICKNAME }
    }

    pub fn invite_others() -> (p: Permissions)
        ensures
            p@ == INVITE_OTHERS,
    {
        Permissions { bits: INVITE_OTHERS }
    }

    /// No permission at all; the starting point of every computation.
    pub fn default_bits() -> (p: Permissions)
        ensures
            p@ == 0,
    {
        Permissions { bits: 0 }
    }

    /// Every defined permission.
    pub fn all() -> (p: Permissions)
        ensures
            p@ == ALL_PERMISSION_BITS,
    {
        Permissions { bits: ALL_PERMISSION_BITS }
    }

    pub fn empty() -> (p: Permissions)
        ensures
            p@ == 0,
    {
        Permissions { bits: 0 }
    }

    pub fn bits(&self) -> (r: u64)
        ensures
            r == self@,
            r <= ALL_PERMISSION_BITS,
    {
        proof {
            use_type_invariant(self);
        }
        self.bits
    }

    /// The set with exactly these bits; `None` when a bit that no permission
    /// names is set.
    pub fn from_bits(bits: u64) -> (r: Option<Permissions>)
        ensures
            r is Some <==> bits & !ALL_PERMISSION_BITS == 0,
            r is Some <==> bits <= ALL_PERMISSION_BITS,
            r matches Some(p) ==> p@ == bits,
    {
        proof {
            lemma_known_bits(bits);
        }
        if bits & !ALL_PERMISSION_BITS == 0 {
            Some(Permissions { bits })
        } else {
            None
        }
    }

    /// The set of the named bits among `bits`; the others are dropped.
    pub fn from_bits_truncate(bits: u64) -> (p: Permissions)
        ensures
            p@ == bits & ALL_PERMISSION_BITS,
    {
        assert(bits & ALL_PERMISSION_BITS <= ALL_PERMISSION_BITS) by (bit_vector);
        Permissions { bits: bits & ALL_PERMISSION_BITS }
    }

    pub fn is_empty(&self) -> (r: bool)
        ensures
            r == (self@ == 0),
    {
        self.bits == 0
    }

    /// Whether every bit of `other` is set here.
    pub fn contains(&self, other: Permissions) -> (r: bool)
        ensures
            r == has_bits(self@, other@),
    {
        self.bits & other.bits == other.bits
    }

    pub fn union(self, other: Permissions) -> (r: Permissions)
        ensures
            r@ == self@ | other@,
    {
        proof {
            use_type_invariant(&self);
            use_type_invariant(&other);
            lemma_or_known(self.bits, other.bits);
        }
        Permissions { bits: self.bits | other.bits }
    }

    /// The bits of `self` that `other` does not hold.
    pub fn difference(self, other: Permissions) -> (r: Permissions)
        ensures
            r@ == self@ & !other@,
    {
        proof {
            use_type_invariant(&self);
            lemma_and_not_known(self.bits, other.bits);
        }
        Permissions { bits: self.bits & !other.bits }
    }

    pub fn insert(&mut self, other: Permissions)
        ensures
            final(self)@ == old(self)@ | other@,
    {
        proof {
            use_type_invariant(&*self);
            use_type_invariant(&other);
            lemma_or_known(self.bits, other.bits);
        }
        self.bits = self.bits | other.bits;
    }

    pub fn remove(&mut self, other: Permissions)
        ensures
            final(self)@ == old(self)@ & !other@,
    {
        proof {
            use_type_invariant(&*self);
            lemma_and_not_known(self.bits, other.bits);
        }
        self.bits = self.bits & !other.bits;
    }

    /// Inserts `other` when `value` holds and removes it otherwise.
    pub fn set(&mut self, other: Permissions, value: bool)
        ensures
            final(self)@ == (if value {
                old(self)@ | other@
            } else {
                old(self)@ & !other@
            }),
    {
        if value {
            self.insert(other);
        } else {
            self.remove(other);
        }
    }

    /// `Ok` when these permissions grant `bits`: an administrator holds every
    /// permission. Otherwise the error names the requested bits that are missing.
    pub fn has(&self, bits: Permissions) -> (r: Result<()>)
        ensures
            r == if grants(self@, bits@) {
                Ok(())
            } else {
                Err(Error::MissingPermissions(Permissions::spec_with_bits(bits@ & !self@)))
            },
    {
        if !self.contains(Permissions::administrator()) && !self.contains(bits) {
            return Err(Error::MissingPermissions(bits.difference(*self)));
        }
        Ok(())
    }

    /// `Ok` when these permissions hold every bit of `bits` themselves, with no
    /// exception for administrators; otherwise the error names the bits missing.
    pub fn require(&self, bits: Permissions) -> (r: Result<()>)
        ensures
            r == if has_bits(self@, bits@) {
                Ok(())
            } else {
                Err(Error::MissingPermissions(Permissions::spec_with_bits(bits@ & !self@)))
            },
    {
        if !self.contains(bits) {
            return Err(Error::MissingPermissions(bits.difference(*self)));
        }
        Ok(())
    }
}

impl Permissions {
    /// The set with exactly these bits, in specifications.
    pub closed spec fn spec_with_bits(bits: u64) -> Permissions {
        Permissions { bits }
    }
}

pub broadcast proof fn lemma_spec_with_bits_view(bits: u64)
    ensures
        #[trigger] Permissions::spec_with_bits(bits)@ == bits,
{
}

/// A set of permissions is the one with its bits.
pub proof fn lemma_with_bits_of_view(p: Permissions)
    ensures
        p == Permissions::spec_with_bits(p@),
{
}

impl Default for Permissions {
    fn default() -> (p: Permissions)
        ensures
            p@ == 0,
    {
        Permissions::default_bits()
    }
}

/// Every bit of `q` is set in `p`.
pub open spec fn has_bits(p: u64, q: u64) -> bool {
    p & q == q
}

/// What `has` lets through: an administrator, or a holder of every bit of `q`.
pub open spec fn grants(p: u64, q: u64) -> bool {
    has_bits(p, ADMINISTRATOR) || has_bits(p, q)
}

proof fn lemma_known_bits(bits: u64)
    ensures
        (bits & !ALL_PERMISSION_BITS == 0) <==> bits <= ALL_PERMISSION_BITS,
{
    assert((bits & !0xffffu64 == 0) <==> bits <= 0xffffu64) by (bit_vector);
}

proof fn lemma_or_known(a: u64, b: u64)
    requires
        a <= ALL_PERMISSION_BITS,
        b <= ALL_PERMISSION_BITS,
    ensures
        a | b <= ALL_PERMISSION_BITS,
{
    assert(a | b <= 0xffffu64) by (bit_vector)
        requires
            a <= 0xffffu64,
            b <= 0xffffu64,
    ;
}

proof fn lemma_and_not_known(a: u64, b: u64)
    requires
        a <= ALL_PERMISSION_BITS,
    ensures
        a & !b <= ALL_PERMISSION_BITS,
        a & !b <= a,
{
    assert(a & !b <= a) by (bit_vector);
}

/// The permissions that the members of a direct conversation have.
pub fn default_permission_dm() -> (p: Permissions)
    ensures
        p@ == DEFAULT_PERMISSION_DM_BITS,
{
    let mut p = Permissions::default_bits();
    p.insert(Permissions::view_channel());
    p.insert(Permissions::send_messages());
    p.insert(Permissions::embed_links());
    p.insert(Permissions::upload_files());
    p.insert(Permissions::read_message_history());
    assert(0u64 | 2u64 | 4u64 | 16u64 | 32u64 | 8u64 == 62u64) by (bit_vector);
    p
}

/// The permissions that everyone has on a new server.
pub fn default_permission_everyone() -> (p: Permissions)
    ensures
        p@ == DEFAULT_PERMISSION_EVERYONE_BITS,
{
    default_permission_dm()
}

/// View channel, send messages, read history, embed links and upload files.
pub const DEFAULT_PERMISSION_DM_BITS: u64 = 62;

pub const DEFAULT_PERMISSION_EVERYONE_BITS: u64 = 62;


// What a user may do on a server and in a channel. The database work (the
// member rows and the server's roles, the parent category) is done by the
// caller; the functions below say which of it is needed and compute the result.

/// The server part before roles: the server owner is an administrator, and
/// everyone holds what the server grants to all.
pub open spec fn server_base(user: Snowflake, server: Server) -> u64 {
    (if server.owner_id == user.0 {
        ADMINISTRATOR
    } else {
        0
    }) | server.permissions@
}

/// The union of the permissions of the roles whose ids the member holds.
pub open spec fn roles_union(member_roles: Seq<Snowflake>, roles: Seq<Role>) -> u64
    decreases roles.len(),
{
    if roles.len() == 0 {
        0
    } else {
        roles_union(member_roles, roles.drop_last()) | (if member_roles.contains(
            roles.last().id,
        ) {
            roles.last().permissions@
        } else {
            0
        })
    }
}

/// One overwrite: an overwrite for this member, or for a role that the member
/// holds, adds its `allow` bits and then takes away its `deny` bits.
pub open spec fn apply_overwrite(
    p: u64,
    user: Snowflake,
    member_roles: Seq<Snowflake>,
    ow: Overwrite,
) -> u64 {
    let p1 = if ow.overwrite_type == OverwriteTypes::Member && ow.id == user {
        (p | ow.allow@) & !ow.deny@
    } else {
        p
    };
    if ow.overwrite_type == OverwriteTypes::Role && member_roles.contains(ow.id) {
        (p1 | ow.allow@) & !ow.deny@
    } else {
        p1
    }
}

/// The overwrites applied in order.
pub open spec fn apply_overwrites(
    p: u64,
    user: Snowflake,
    member_roles: Seq<Snowflake>,
    ows: Seq<Overwrite>,
) -> u64
    decreases ows.len(),
{
    if ows.len() == 0 {
        p
    } else {
        apply_overwrite(apply_overwrites(p, user, member_roles, ows.drop_last()), user, member_roles, ows.last())
    }
}

/// Group, text, voice and category channels carry overwrites.
pub open spec fn uses_overwrites(c: Channel) -> bool {
    c.channel_type == ChannelTypes::Group || c.channel_type == ChannelTypes::Text
        || c.channel_type == ChannelTypes::Voice || c.channel_type == ChannelTypes::Category
}

/// The overwrites that apply in a channel: its own, then those of its parent
/// category when that could be loaded.
pub open spec fn channel_overwrites(c: Channel, category: Option<Seq<Overwrite>>) -> Seq<Overwrite> {
    c.overwrites.unwrap()@ + match category {
        Some(o) => o,
        None => Seq::empty(),
    }
}

/// The permissions of `user`, on `server` if one is given and in `channel` if
/// one is given. `server_member_roles` are the roles that the user holds as a
/// member of the server, and `server_roles` all the roles of the server;
/// `channel_member_roles` are the roles the user holds on the channel's server,
/// and `category` the overwrites of the channel's parent category.
pub open spec fn permissions_of(
    user: Snowflake,
    server: Option<Server>,
    server_member_roles: Seq<Snowflake>,
    server_roles: Seq<Role>,
    channel: Option<Channel>,
    channel_member_roles: Seq<Snowflake>,
    category: Option<Seq<Overwrite>>,
) -> u64 {
    if server is Some && has_bits(server_base(user, server.unwrap()), ADMINISTRATOR) {
        server_base(user, server.unwrap())
    } else {
        let p0 = match server {
            Some(s) => server_base(user, s) | roles_union(server_member_roles, server_roles),
            None => 0,
        };
        match channel {
            None => p0,
            Some(c) => {
                let p1 = if c.channel_type == ChannelTypes::Direct {
                    p0 | DEFAULT_PERMISSION_DM_BITS
                } else {
                    p0
                };
                if uses_overwrites(c) {
                    if c.owner_id == Some(user) {
                        p1 | ADMINISTRATOR
                    } else {
                        let p2 = if c.channel_type == ChannelTypes::Group {
                            p1 | c.permissions.unwrap()@
                        } else {
                            p1
                        };
                        apply_overwrites(
                            p2,
                            user,
                            channel_member_roles,
                            channel_overwrites(c, category),
                        )
                    }
                } else {
                    p1
                }
            },
        }
    }
}

/// What the permission computation needs of a channel: a channel with
/// overwrites that the user does not own has its overwrites set; a group has
/// its permissions set, and no overwrite in it names a role, since a group has
/// no member roles to look them up in.
pub open spec fn channel_ready(
    user: Snowflake,
    channel: Channel,
    category: Option<Seq<Overwrite>>,
) -> bool {
    uses_overwrites(channel) && channel.owner_id != Some(user) ==> {
        &&& channel.overwrites is Some
        &&& channel.channel_type == ChannelTypes::Group ==> {
            &&& channel.permissions is Some
            &&& forall|i: int|
                0 <= i < channel_overwrites(channel, category).len() ==> (#[trigger] channel_overwrites(
                    channel,
                    category,
                )[i]).overwrite_type == OverwriteTypes::Member
        }
    }
}

/// The server part before roles.
pub fn server_base_permissions(user: Snowflake, server: &Server) -> (p: Permissions)
    ensures
        p@ == server_base(user, *server),
{
    let mut p = Permissions::default_bits();
    p.set(Permissions::administrator(), server.owner_id == user.0);
    p.insert(server.permissions);
    proof {
        assert(0u64 & !1u64 == 0u64) by (bit_vector);
        assert(0u64 | 1u64 == 1u64) by (bit_vector);
    }
    p
}

/// Whether the user's member row and the server's roles are needed: they are
/// unless the server part already makes the user an administrator.
pub fn server_needs_member(user: Snowflake, server: &Server) -> (r: bool)
    ensures
        r == !has_bits(server_base(user, *server), ADMINISTRATOR),
{
    !server_base_permissions(user, server).contains(Permissions::administrator())
}

/// Whether the user's member row on the channel's server is needed: for a text,
/// voice or category channel, once the server part has not settled the answer.
pub fn channel_needs_member(user: Snowflake, channel: &Channel) -> (r: bool)
    ensures
        r == (uses_overwrites(*channel) && channel.owner_id != Some(user)
            && channel.channel_type != ChannelTypes::Group),
{
    (channel.is_group() || channel.is_text() || channel.is_voice() || channel.is_category())
        && channel.owner_id != Some(user) && !channel.is_group()
}

/// Whether the channel's parent category is needed.
pub fn channel_needs_category(user: Snowflake, channel: &Channel) -> (r: bool)
    ensures
        r == (uses_overwrites(*channel) && channel.owner_id != Some(user)
            && channel.parent_id is Some),
{
    (channel.is_group() || channel.is_text() || channel.is_voice() || channel.is_category())
        && channel.owner_id != Some(user) && channel.parent_id.is_some()
}

fn contains_id(ids: &Vec<Snowflake>, id: Snowflake) -> (r: bool)
    ensures
        r == ids@.contains(id),
{
    let mut i: usize = 0;
    while i < ids.len()
        invariant
            i <= ids.len(),
            forall|j: int| 0 <= j < i ==> ids@[j] != id,
        decreases ids.len() - i,
    {
        if ids[i] == id {
            proof {
                assert(ids@[i as int] == id);
            }
            return true;
        }
        i = i + 1;
    }
    false
}

fn union_of_roles(member_roles: &Vec<Snowflake>, roles: &Vec<Role>) -> (p: Permissions)
    ensures
        p@ == roles_union(member_roles@, roles@),
{
    let mut p = Permissions::default_bits();
    let mut i: usize = 0;
    while i < roles.len()
        invariant
            i <= roles.len(),
            p@ == roles_union(member_roles@, roles@.take(i as int)),
        decreases roles.len() - i,
    {
        proof {
            assert(roles@.take(i + 1).drop_last() =~= roles@.take(i as int));
            assert(0u64 | 0u64 == 0u64) by (bit_vector);
        }
        if contains_id(member_roles, roles[i].id) {
            p.insert(roles[i].permissions);
        } else {
            proof {
                let x = p@;
                assert(x | 0u64 == x) by (bit_vector);
            }
        }
        i = i + 1;
    }
    proof {
        assert(roles@.take(roles.len() as int) =~= roles@);
    }
    p
}

fn overwrite_one(p: &mut Permissions, user: Snowflake, member_roles: &Vec<Snowflake>, ow: &Overwrite)
    ensures
        final(p)@ == apply_overwrite(old(p)@, user, member_roles@, *ow),
{
    if ow.overwrite_type == OverwriteTypes::Member && ow.id == user {
        p.insert(ow.allow);
        p.remove(ow.deny);
    }
    if ow.overwrite_type == OverwriteTypes::Role && contains_id(member_roles, ow.id) {
        p.insert(ow.allow);
        p.remove(ow.deny);
    }
}

/// The permissions of `user`, given the rows that `server_needs_member`,
/// `channel_needs_member` and `channel_needs_category` asked for: empty role
/// lists stand for rows that were not needed, and `category` is `None` when the
/// channel has no parent or the parent could not be loaded.
pub fn compute_permissions(
    user: Snowflake,
    server: Option<&Server>,
    server_member_roles: &Vec<Snowflake>,
    server_roles: &Vec<Role>,
    channel: Option<&Channel>,
    channel_member_roles: &Vec<Snowflake>,
    category: Option<&Vec<Overwrite>>,
) -> (p: Permissions)
    requires
        channel matches Some(c) ==> !(server matches Some(s) && has_bits(
            server_base(user, *s),
            ADMINISTRATOR,
        )) ==> channel_ready(
            user,
            *c,
            match category {
                Some(o) => Some(o@),
                None => None,
            },
        ),
    ensures
        p@ == permissions_of(
            user,
            match server {
                Some(s) => Some(*s),
                None => None,
            },
            server_member_roles@,
            server_roles@,
            match channel {
                Some(c) => Some(*c),
                None => None,
            },
            channel_member_roles@,
            match category {
                Some(o) => Some(o@),
                None => None,
            },
        ),
{
    let mut p = Permissions::default_bits();
    if let Some(server) = server {
        p = server_base_permissions(user, server);
        if p.contains(Permissions::administrator()) {
            return p;
        }
        p.insert(union_of_roles(server_member_roles, server_roles));
    }
    if let Some(channel) = channel {
        if channel.is_dm() {
            p.insert(default_permission_dm());
        }
        if channel.is_group() || channel.is_text() || channel.is_voice() || channel.is_category() {
            if channel.owner_id == Some(user) {
                p.set(Permissions::administrator(), true);
                return p;
            }
            if channel.is_group() {
                let granted = channel.permissions.unwrap();
                p.insert(granted);
            }
            let own = channel.overwrites.as_ref().unwrap();
            let mut overwrites: Vec<Overwrite> = Vec::new();
            let mut k: usize = 0;
            while k < own.len()
                invariant
                    k <= own.len(),
                    overwrites@ == own@.take(k as int),
                decreases own.len() - k,
            {
                overwrites.push(own[k]);
                k = k + 1;
                proof {
                    assert(own@.take(k as int) =~= own@.take(k - 1).push(own@[k - 1]));
                }
            }
            if let Some(extra) = category {
                let mut k: usize = 0;
                while k < extra.len()
                    invariant
                        k <= extra.len(),
                        overwrites@ == own@ + extra@.take(k as int),
                    decreases extra.len() - k,
                {
                    overwrites.push(extra[k]);
                    k = k + 1;
                    proof {
                        assert(extra@.take(k as int) =~= extra@.take(k - 1).push(extra@[k - 1]));
                    }
                }
                proof {
                    assert(extra@.take(extra.len() as int) =~= extra@);
                }
            } else {
                proof {
                    assert(own@.take(own.len() as int) =~= own@);
                    assert(own@ + Seq::<Overwrite>::empty() =~= own@);
                }
            }
            let ghost start = p@;
            let mut i: usize = 0;
            while i < overwrites.len()
                invariant
                    i <= overwrites.len(),
                    p@ == apply_overwrites(start, user, channel_member_roles@, overwrites@.take(i as int)),
                decreases overwrites.len() - i,
            {
                proof {
                    assert(overwrites@.take(i + 1).drop_last() =~= overwrites@.take(i as int));
                }
                overwrite_one(&mut p, user, channel_member_roles, &overwrites[i]);
                i = i + 1;
            }
            proof {
                assert(overwrites@.take(overwrites.len() as int) =~= overwrites@);
            }
        }
    }
    p
}


/// The bits that a text of decimal digits denotes, when every one of them
/// names a permission.
pub open spec fn permissions_from_text(s: Seq<char>) -> Option<u64> {
    match parse_u64_spec(s) {
        Some(v) => if v <= ALL_PERMISSION_BITS {
            Some(v)
        } else {
            None
        },
        None => None,
    }
}

impl Permissions {
    /// The decimal text of the bits, which is how permissions are written out.
    pub fn to_bits_string(&self) -> (s: String)
        ensures
            s@ == decimal(self@ as nat),
    {
        u64_to_string(self.bits)
    }

    /// The permissions whose bits are those of a signed number read as
    /// unsigned; `None` when a bit that no permission names is set.
    pub fn from_i64_bits(v: i64) -> (r: Option<Permissions>)
        ensures
            r is Some <==> (v as u64) <= ALL_PERMISSION_BITS,
            r matches Some(p) ==> p@ == v as u64,
    {
        Permissions::from_bits(v as u64)
    }

    /// The bits as the signed number that a row stores.
    pub fn to_i64_bits(&self) -> (r: i64)
        ensures
            r == self@ as i64,
            0 <= r <= ALL_PERMISSION_BITS,
    {
        proof {
            use_type_invariant(self);
        }
        self.bits as i64
    }

    /// The permissions that a decimal text of bits denotes; `None` when it is
    /// not a number or sets a bit that no permission names.
    pub fn from_bits_str(s: &str) -> (r: Option<Permissions>)
        ensures
            r is Some <==> permissions_from_text(s@) is Some,
            r matches Some(p) ==> Some(p@) == permissions_from_text(s@),
    {
        match parse_u64(s) {
            Some(v) => Permissions::from_bits(v),
            None => None,
        }
    }
}

/// Reading back the text that permissions are written as gives the same bits.
pub proof fn law_permissions_text_round_trip(bits: u64)
    requires
        bits <= ALL_PERMISSION_BITS,
    ensures
        permissions_from_text(decimal(bits as nat)) == Some(bits),
{
    lemma_parse_u64_of_decimal(bits);
}

/// The owner of a server is an administrator there, whatever else holds.
pub proof fn law_server_owner_is_administrator(
    user: Snowflake,
    server: Server,
    server_member_roles: Seq<Snowflake>,
    server_roles: Seq<Role>,
    channel: Option<Channel>,
    channel_member_roles: Seq<Snowflake>,
    category: Option<Seq<Overwrite>>,
)
    requires
        server.owner_id == user.0,
    ensures
        has_bits(
            permissions_of(
                user,
                Some(server),
                server_member_roles,
                server_roles,
                channel,
                channel_member_roles,
                category,
            ),
            ADMINISTRATOR,
        ),
{
    let x = server.permissions@;
    assert((1u64 | x) & 1u64 == 1u64) by (bit_vector);
}

/// The owner of a group, text, voice or category channel is an administrator
/// in it, whatever else holds.
pub proof fn law_channel_owner_is_administrator(
    user: Snowflake,
    server: Option<Server>,
    server_member_roles: Seq<Snowflake>,
    server_roles: Seq<Role>,
    channel: Channel,
    channel_member_roles: Seq<Snowflake>,
    category: Option<Seq<Overwrite>>,
)
    requires
        uses_overwrites(channel),
        channel.owner_id == Some(user),
    ensures
        has_bits(
            permissions_of(
                user,
                server,
                server_member_roles,
                server_roles,
                Some(channel),
                channel_member_roles,
                category,
            ),
            ADMINISTRATOR,
        ),
{
    let r = permissions_of(
        user,
        server,
        server_member_roles,
        server_roles,
        Some(channel),
        channel_member_roles,
        category,
    );
    if !(server is Some && has_bits(server_base(user, server.unwrap()), ADMINISTRATOR)) {
        let p0 = match server {
            Some(s) => server_base(user, s) | roles_union(server_member_roles, server_roles),
            None => 0,
        };
        let p1 = if channel.channel_type == ChannelTypes::Direct {
            p0 | DEFAULT_PERMISSION_DM_BITS
        } else {
            p0
        };
        assert((p1 | 1u64) & 1u64 == 1u64) by (bit_vector);
    }
}

/// A member's own overwrite decides the bits it names: afterwards its `deny`
/// bits are gone and its `allow` bits that it does not also deny are held.
pub proof fn law_own_overwrite_decides(
    p: u64,
    user: Snowflake,
    member_roles: Seq<Snowflake>,
    ow: Overwrite,
)
    requires
        ow.overwrite_type == OverwriteTypes::Member,
        ow.id == user,
    ensures
        apply_overwrite(p, user, member_roles, ow) & ow.deny@ == 0,
        has_bits(apply_overwrite(p, user, member_roles, ow), ow.allow@ & !ow.deny@),
{
    let a = ow.allow@;
    let d = ow.deny@;
    assert(((p | a) & !d) & d == 0) by (bit_vector);
    assert(((p | a) & !d) & (a & !d) == a & !d) by (bit_vector);
}

/// When the server part makes the user an administrator, the member's roles
/// and the server's roles do not matter: they need not be loaded.
pub proof fn law_administrator_needs_no_roles(
    user: Snowflake,
    server: Server,
    member_roles_a: Seq<Snowflake>,
    roles_a: Seq<Role>,
    member_roles_b: Seq<Snowflake>,
    roles_b: Seq<Role>,
    channel: Option<Channel>,
    channel_member_roles: Seq<Snowflake>,
    category: Option<Seq<Overwrite>>,
)
    requires
        has_bits(server_base(user, server), ADMINISTRATOR),
    ensures
        permissions_of(
            user,
            Some(server),
            member_roles_a,
            roles_a,
            channel,
            channel_member_roles,
            category,
        ) == permissions_of(
            user,
            Some(server),
            member_roles_b,
            roles_b,
            channel,
            channel_member_roles,
            category,
        ),
{
}

proof fn lemma_member_overwrites_ignore_roles(
    p: u64,
    user: Snowflake,
    roles_a: Seq<Snowflake>,
    roles_b: Seq<Snowflake>,
    ows: Seq<Overwrite>,
)
    requires
        forall|i: int| 0 <= i < ows.len() ==> (#[trigger] ows[i]).overwrite_type
            == OverwriteTypes::Member,
    ensures
        apply_overwrites(p, user, roles_a, ows) == apply_overwrites(p, user, roles_b, ows),
    decreases ows.len(),
{
    if ows.len() > 0 {
        let init = ows.drop_last();
        assert forall|i: int| 0 <= i < init.len() implies (#[trigger] init[i]).overwrite_type
            == OverwriteTypes::Member by {
            assert(init[i] == ows[i]);
        }
        lemma_member_overwrites_ignore_roles(p, user, roles_a, roles_b, init);
        assert(ows.last() == ows[ows.len() - 1]);
    }
}

/// The user's roles on the channel's server matter only where
/// `channel_needs_member` asks for them: elsewhere any roles give the same
/// answer, on a channel that the computation can take.
pub proof fn law_channel_member_roles_only_where_needed(
    user: Snowflake,
    server: Option<Server>,
    server_member_roles: Seq<Snowflake>,
    server_roles: Seq<Role>,
    channel: Channel,
    roles_a: Seq<Snowflake>,
    roles_b: Seq<Snowflake>,
    category: Option<Seq<Overwrite>>,
)
    requires
        channel_ready(user, channel, category),
        !(uses_overwrites(channel) && channel.owner_id != Some(user) && channel.channel_type
            != ChannelTypes::Group),
    ensures
        permissions_of(
            user,
            server,
            server_member_roles,
            server_roles,
            Some(channel),
            roles_a,
            category,
        ) == permissions_of(
            user,
            server,
            server_member_roles,
            server_roles,
            Some(channel),
            roles_b,
            category,
        ),
{
    if uses_overwrites(channel) && channel.owner_id != Some(user) {
        let ows = channel_overwrites(channel, category);
        let p = if server is Some {
            server_base(user, server.unwrap()) | roles_union(server_member_roles, server_roles)
        } else {
            0
        };
        let p2 = p | channel.permissions.unwrap()@;
        lemma_member_overwrites_ignore_roles(p2, user, roles_a, roles_b, ows);
    }
}

/// The parent category matters only where the channel's overwrites are
/// consulted: for a channel without them, or one that the user owns, any
/// category gives the same answer.
pub proof fn law_category_only_where_needed(
    user: Snowflake,
    server: Option<Server>,
    server_member_roles: Seq<Snowflake>,
    server_roles: Seq<Role>,
    channel: Channel,
    channel_member_roles: Seq<Snowflake>,
    category_a: Option<Seq<Overwrite>>,
    category_b: Option<Seq<Overwrite>>,
)
    requires
        !(uses_overwrites(channel) && channel.owner_id != Some(user)),
    ensures
        permissions_of(
            user,
            server,
            server_member_roles,
            server_roles,
            Some(channel),
            channel_member_roles,
            category_a,
        ) == permissions_of(
            user,
            server,
            server_member_roles,
            server_roles,
            Some(channel),
            channel_member_roles,
            category_b,
        ),
{
}

proof fn lemma_foreign_overwrite_skipped(
    p: u64,
    user: Snowflake,
    member_roles: Seq<Snowflake>,
    a: Seq<Overwrite>,
    ow: Overwrite,
    b: Seq<Overwrite>,
)
    requires
        ow.overwrite_type == OverwriteTypes::Member,
        ow.id != user,
    ensures
        apply_overwrites(p, user, member_roles, a.push(ow) + b) == apply_overwrites(
            p,
            user,
            member_roles,
            a + b,
        ),
    decreases b.len(),
{
    if b.len() == 0 {
        assert(a.push(ow) + b =~= a.push(ow));
        assert(a + b =~= a);
        assert(a.push(ow).drop_last() =~= a);
    } else {
        let init = b.drop_last();
        lemma_foreign_overwrite_skipped(p, user, member_roles, a, ow, init);
        assert((a.push(ow) + b).drop_last() =~= a.push(ow) + init);
        assert((a + b).drop_last() =~= a + init);
        assert((a.push(ow) + b).last() == b.last());
        assert((a + b).last() == b.last());
    }
}

/// An overwrite for another member changes nothing for this user: the channel
/// with one more such overwrite at the end of its own overwrites gives the
/// same permissions as the channel without it.
pub proof fn law_other_member_overwrite_changes_nothing(
    user: Snowflake,
    server: Option<Server>,
    server_member_roles: Seq<Snowflake>,
    server_roles: Seq<Role>,
    channel: Channel,
    with_overwrite: Channel,
    channel_member_roles: Seq<Snowflake>,
    category: Option<Seq<Overwrite>>,
    ow: Overwrite,
)
    requires
        ow.overwrite_type == OverwriteTypes::Member,
        ow.id != user,
        channel.overwrites is Some,
        with_overwrite.overwrites matches Some(o) && o@ == channel.overwrites.unwrap()@.push(ow),
        with_overwrite.id == channel.id,
        with_overwrite.channel_type == channel.channel_type,
        with_overwrite.name == channel.name,
        with_overwrite.recipients == channel.recipients,
        with_overwrite.server_id == channel.server_id,
        with_overwrite.parent_id == channel.parent_id,
        with_overwrite.owner_id == channel.owner_id,
        with_overwrite.topic == channel.topic,
        with_overwrite.permissions == channel.permissions,
    ensures
        permissions_of(
            user,
            server,
            server_member_roles,
            server_roles,
            Some(with_overwrite),
            channel_member_roles,
            category,
        ) == permissions_of(
            user,
            server,
            server_member_roles,
            server_roles,
            Some(channel),
            channel_member_roles,
            category,
        ),
{
    let own = channel.overwrites.unwrap()@;
    let rest = match category {
        Some(o) => o,
        None => Seq::<Overwrite>::empty(),
    };
    let p0 = match server {
        Some(s) => server_base(user, s) | roles_union(server_member_roles, server_roles),
        None => 0,
    };
    let p1 = if channel.channel_type == ChannelTypes::Direct {
        p0 | DEFAULT_PERMISSION_DM_BITS
    } else {
        p0
    };
    let p2 = if channel.channel_type == ChannelTypes::Group {
        p1 | channel.permissions.unwrap()@
    } else {
        p1
    };
    lemma_foreign_overwrite_skipped(p2, user, channel_member_roles, own, ow, rest);
    assert(channel_overwrites(with_overwrite, category) == own.push(ow) + rest);
    assert(channel_overwrites(channel, category) == own + rest);
}

/// Only an administrator, or a holder of every requested bit, is granted a
/// request.
pub proof fn law_grants_only_administrators_and_holders(p: u64, q: u64)
    ensures
        grants(p, q) <==> (p & 1u64 == 1u64 || p & q == q),
        has_bits(p, q) <==> p & q == q,
{
}

/// In a group, text, voice or category channel that the user does not own,
/// the user's own overwrite, applied last, decides the bits it names: the
/// result holds none of its denied bits and all of its allowed bits that it
/// does not also deny. (Unless the server part already makes the user an
/// administrator, in which case the channel is not looked at.)
pub proof fn law_own_overwrite_decides_in_channel(
    user: Snowflake,
    server: Option<Server>,
    server_member_roles: Seq<Snowflake>,
    server_roles: Seq<Role>,
    channel: Channel,
    channel_member_roles: Seq<Snowflake>,
    category: Option<Seq<Overwrite>>,
    ow: Overwrite,
)
    requires
        !(server is Some && has_bits(server_base(user, server.unwrap()), ADMINISTRATOR)),
        channel.channel_type == ChannelTypes::Group || channel.channel_type == ChannelTypes::Text
            || channel.channel_type == ChannelTypes::Voice || channel.channel_type
            == ChannelTypes::Category,
        channel.owner_id != Some(user),
        channel.overwrites is Some,
        ({
            let all = channel.overwrites.unwrap()@ + match category {
                Some(o) => o,
                None => Seq::<Overwrite>::empty(),
            };
            all.len() > 0 && all.last() == ow
        }),
        ow.overwrite_type == OverwriteTypes::Member,
        ow.id == user,
    ensures
        ({
            let r = permissions_of(
                user,
                server,
                server_member_roles,
                server_roles,
                Some(channel),
                channel_member_roles,
                category,
            );
            &&& r & ow.deny@ == 0
            &&& r & (ow.allow@ & !ow.deny@) == ow.allow@ & !ow.deny@
        }),
{
    let all = channel_overwrites(channel, category);
    let p0 = match server {
        Some(s) => server_base(user, s) | roles_union(server_member_roles, server_roles),
        None => 0,
    };
    let p1 = if channel.channel_type == ChannelTypes::Direct {
        p0 | DEFAULT_PERMISSION_DM_BITS
    } else {
        p0
    };
    let p2 = if channel.channel_type == ChannelTypes::Group {
        p1 | channel.permissions.unwrap()@
    } else {
        p1
    };
    let before = apply_overwrites(p2, user, channel_member_roles, all.drop_last());
    law_own_overwrite_decides(before, user, channel_member_roles, ow);
    assert(apply_overwrites(p2, user, channel_member_roles, all) == apply_overwrite(
        before,
        user,
        channel_member_roles,
        ow,
    ));
}

/// A role overwrite for a role that the user holds, applied last in a channel
/// with overwrites that the user does not own, decides the bits it names, as
/// the user's own overwrite does.
pub proof fn law_held_role_overwrite_decides_in_channel(
    user: Snowflake,
    server: Option<Server>,
    server_member_roles: Seq<Snowflake>,
    server_roles: Seq<Role>,
    channel: Channel,
    channel_member_roles: Seq<Snowflake>,
    category: Option<Seq<Overwrite>>,
    ow: Overwrite,
)
    requires
        !(server is Some && has_bits(server_base(user, server.unwrap()), ADMINISTRATOR)),
        channel.channel_type == ChannelTypes::Group || channel.channel_type == ChannelTypes::Text
            || channel.channel_type == ChannelTypes::Voice || channel.channel_type
            == ChannelTypes::Category,
        channel.owner_id != Some(user),
        channel.overwrites is Some,
        ({
            let all = channel.overwrites.unwrap()@ + match category {
                Some(o) => o,
                None => Seq::<Overwrite>::empty(),
            };
            all.len() > 0 && all.last() == ow
        }),
        ow.overwrite_type == OverwriteTypes::Role,
        channel_member_roles.contains(ow.id),
    ensures
        ({
            let r = permissions_of(
                user,
                server,
                server_member_roles,
                server_roles,
                Some(channel),
                channel_member_roles,
                category,
            );
            &&& r & ow.deny@ == 0
            &&& r & (ow.allow@ & !ow.deny@) == ow.allow@ & !ow.deny@
        }),
{
    let all = channel_overwrites(channel, category);
    let p0 = match server {
        Some(s) => server_base(user, s) | roles_union(server_member_roles, server_roles),
        None => 0,
    };
    let p2 = if channel.channel_type == ChannelTypes::Group {
        p0 | channel.permissions.unwrap()@
    } else {
        p0
    };
    let before = apply_overwrites(p2, user, channel_member_roles, all.drop_last());
    let a = ow.allow@;
    let d = ow.deny@;
    assert(((before | a) & !d) & d == 0) by (bit_vector);
    assert(((before | a) & !d) & (a & !d) == a & !d) by (bit_vector);
    assert(apply_overwrites(p2, user, channel_member_roles, all) == apply_overwrite(
        before,
        user,
        channel_member_roles,
        ow,
    ));
}

/// Outside servers, a direct conversation grants exactly the default
/// permissions of direct messages: viewing, sending, reading history,
/// embedding links and uploading files.
pub proof fn law_direct_channel_defaults(
    user: Snowflake,
    channel: Channel,
    channel_member_roles: Seq<Snowflake>,
    category: Option<Seq<Overwrite>>,
)
    requires
        channel.channel_type == ChannelTypes::Direct,
    ensures
        permissions_of(
            user,
            None,
            Seq::empty(),
            Seq::empty(),
            Some(channel),
            channel_member_roles,
            category,
        ) == VIEW_CHANNEL | SEND_MESSAGES | READ_MESSAGE_HISTORY | EMBED_LINKS | UPLOAD_FILES,
{
    assert(0u64 | 62u64 == 62u64) by (bit_vector);
    assert(2u64 | 4u64 | 8u64 | 16u64 | 32u64 == 62u64) by (bit_vector);
}

/// In a group without overwrites that the user does not own, the user holds
/// exactly what the group grants.
pub proof fn law_group_grants_its_permissions(
    user: Snowflake,
    channel: Channel,
    channel_member_roles: Seq<Snowflake>,
)
    requires
        channel.channel_type == ChannelTypes::Group,
        channel.owner_id != Some(user),
        channel.permissions is Some,
        channel.overwrites matches Some(o) && o@.len() == 0,
    ensures
        permissions_of(
            user,
            None,
            Seq::empty(),
            Seq::empty(),
            Some(channel),
            channel_member_roles,
            None,
        ) == channel.permissions.unwrap()@,
{
    let g = channel.permissions.unwrap()@;
    assert(0u64 | g == g) by (bit_vector);
    assert(channel_overwrites(channel, None) =~= Seq::<Overwrite>::empty());
}

proof fn lemma_no_held_role_adds_nothing(member_roles: Seq<Snowflake>, roles: Seq<Role>)
    requires
        forall|i: int| 0 <= i < roles.len() ==> !member_roles.contains(#[trigger] roles[i].id),
    ensures
        roles_union(member_roles, roles) == 0,
    decreases roles.len(),
{
    if roles.len() > 0 {
        let init = roles.drop_last();
        assert forall|i: int| 0 <= i < init.len() implies !member_roles.contains(
            #[trigger] init[i].id,
        ) by {
            assert(init[i] == roles[i]);
        }
        lemma_no_held_role_adds_nothing(member_roles, init);
        assert(!member_roles.contains(roles[roles.len() - 1].id));
        assert(0u64 | 0u64 == 0u64) by (bit_vector);
    }
}

/// On a server, outside any channel, a member who is not the owner and holds
/// none of the server's roles has exactly what the server grants to everyone.
pub proof fn law_roles_not_held_grant_nothing(
    user: Snowflake,
    server: Server,
    server_member_roles: Seq<Snowflake>,
    server_roles: Seq<Role>,
)
    requires
        server.owner_id != user.0,
        forall|i: int|
            0 <= i < server_roles.len() ==> !server_member_roles.contains(#[trigger] server_roles[i].id),
    ensures
        permissions_of(
            user,
            Some(server),
            server_member_roles,
            server_roles,
            None,
            Seq::empty(),
            None,
        ) == server.permissions@,
{
    lemma_no_held_role_adds_nothing(server_member_roles, server_roles);
    let e = server.permissions@;
    assert(0u64 | e == e) by (bit_vector);
    assert(e | 0u64 == e) by (bit_vector);
}

proof fn lemma_roles_union_holds(member_roles: Seq<Snowflake>, roles: Seq<Role>, i: int)
    requires
        0 <= i < roles.len(),
        member_roles.contains(roles[i].id),
    ensures
        has_bits(roles_union(member_roles, roles), roles[i].permissions@),
    decreases roles.len(),
{
    let rest = roles_union(member_roles, roles.drop_last());
    let q = roles[i].permissions@;
    if i == roles.len() - 1 {
        assert((rest | q) & q == q) by (bit_vector);
    } else {
        lemma_roles_union_holds(member_roles, roles.drop_last(), i);
        let last = if member_roles.contains(roles.last().id) {
            roles.last().permissions@
        } else {
            0
        };
        assert(rest & q == q ==> (rest | last) & q == q) by (bit_vector);
    }
}

/// On a server, outside any channel, a member is granted every permission of
/// every role that they have: they hold its bits or are an administrator.
pub proof fn law_member_holds_role_permissions(
    user: Snowflake,
    server: Server,
    server_member_roles: Seq<Snowflake>,
    server_roles: Seq<Role>,
    i: int,
)
    requires
        0 <= i < server_roles.len(),
        server_member_roles.contains(server_roles[i].id),
    ensures
        grants(
            permissions_of(
                user,
                Some(server),
                server_member_roles,
                server_roles,
                None,
                Seq::empty(),
                None,
            ),
            server_roles[i].permissions@,
        ),
{
    lemma_roles_union_holds(server_member_roles, server_roles, i);
    let b = server_base(user, server);
    let u = roles_union(server_member_roles, server_roles);
    let q = server_roles[i].permissions@;
    if !has_bits(b, ADMINISTRATOR) {
        assert(u & q == q ==> (b | u) & q == q) by (bit_vector);
    }
}

} // verus!
