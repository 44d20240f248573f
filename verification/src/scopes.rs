//! API key scopes and organization member permissions, each a [`Bitflags`]
//! type whose flags are single bits.

use vstd::prelude::*;
use vstd::std_specs::cmp::PartialEqSpecImpl;
use vstd::std_specs::convert::FromSpecImpl;
use crate::bitflags::{
    flag_bits, flag_views, lemma_names_ascending, names_ascend_stepwise, names_ascending, single_bit, AsBit, Bitfield, Bitflags,
};
use crate::text::{decimal, lemma_seq_lt_at, lemma_seq_lt_prefix, seq_lt, str_eq, u64_to_decimal};

verus! {

/// A permission of an API key; each scope is one bit of a `u64`.
#[derive(Debug, Clone, Copy, Hash, PartialEq, Eq, Structural, PartialOrd, Ord)]
pub enum ApiKeyScope {
    /// Bit `1 << 0`, named `user:access`.
    UserAccess,
    /// Bit `1 << 1`, named `user:update`.
    UserUpdate,
    /// Bit `1 << 2`, named `user:delete`.
    UserDelete,
    /// Bit `1 << 3`, named `user:connections`.
    UserConnections,
    /// Bit `1 << 4`, named `user:avatar:update`.
    UserAvatarUpdate,
    /// Bit `1 << 5`, named `user:sessions:list`.
    UserSessionsList,
    /// Bit `1 << 6`, named `repo:access`.
    RepoAccess,
    /// Bit `1 << 7`, named `repo:create`.
    RepoCreate,
    /// Bit `1 << 8`, named `repo:delete`.
    RepoDelete,
    /// Bit `1 << 9`, named `repo:update`.
    RepoUpdate,
    /// Bit `1 << 10`, named `repo:icon:update`.
    RepoIconUpdate,
    /// Bit `1 << 11`, named `repo:releases:create`.
    RepoReleaseCreate,
    /// Bit `1 << 12`, named `repo:releases:update`.
    RepoReleaseUpdate,
    /// Bit `1 << 13`, named `repo:releases:delete`.
    RepoReleaseDelete,
    /// Bit `1 << 14`, named `repo:members:list`.
    RepoMembersList,
    /// Bit `1 << 15`, named `repo:members:update`.
    RepoMemberUpdate,
    /// Bit `1 << 16`, named `repo:members:kick`.
    RepoMemberKick,
    /// Bit `1 << 17`, named `repo:members:invites:access`.
    RepoMemberInviteAccess,
    /// Bit `1 << 18`, named `repo:members:invites:delete`.
    RepoMemberInviteDelete,
    /// Bit `1 << 19`, named `repo:webhooks:list`.
    RepoWebhookList,
    /// Bit `1 << 20`, named `repo:webhooks:create`.
    RepoWebhookCreate,
    /// Bit `1 << 21`, named `repo:webhooks:update`.
    RepoWebhookUpdate,
    /// Bit `1 << 22`, named `repo:webhooks:delete`.
    RepoWebhookDelete,
    /// Bit `1 << 23`, named `repo:webhooks:events:access`.
    RepoWebhookEventAccess,
    /// Bit `1 << 24`, named `repo:webhooks:events:delete`.
    RepoWebhookEventDelete,
    /// Bit `1 << 25`, named `apikeys:view`.
    ApiKeyView,
    /// Bit `1 << 26`, named `apikeys:list`.
    ApiKeyList,
    /// Bit `1 << 27`, named `apikeys:create`.
    ApiKeyCreate,
    /// Bit `1 << 28`, named `apikeys:delete`.
    ApiKeyDelete,
    /// Bit `1 << 29`, named `apikeys:update`.
    ApiKeyUpdate,
    /// Bit `1 << 30`, named `org:access`.
    OrgAccess,
    /// Bit `1 << 31`, named `org:create`.
    OrgCreate,
    /// Bit `1 << 32`, named `org:update`.
    OrgUpdate,
    /// Bit `1 << 33`, named `org:delete`.
    OrgDelete,
    /// Bit `1 << 34`, named `org:members:invites`.
    OrgMemberInvites,
    /// Bit `1 << 35`, named `org:members:list`.
    OrgMemberList,
    /// Bit `1 << 36`, named `org:members:kick`.
    OrgMemberKick,
    /// Bit `1 << 37`, named `org:members:update`.
    OrgMemberUpdate,
    /// Bit `1 << 38`, named `org:webhooks:list`.
    OrgWebhookList,
    /// Bit `1 << 39`, named `org:webhooks:create`.
    OrgWebhookCreate,
    /// Bit `1 << 40`, named `org:webhooks:update`.
    OrgWebhookUpdate,
    /// Bit `1 << 41`, named `org:webhooks:delete`.
    OrgWebhookDelete,
    /// Bit `1 << 42`, named `org:webhooks:events:list`.
    OrgWebhookEventList,
    /// Bit `1 << 43`, named `org:webhooks:events:delete`.
    OrgWebhookEventDelete,
    /// Bit `1 << 44`, named `admin:stats`.
    AdminStats,
    /// Bit `1 << 45`, named `admin:users:create`.
    AdminUserCreate,
    /// Bit `1 << 46`, named `admin:users:delete`.
    AdminUserDelete,
    /// Bit `1 << 47`, named `admin:users:update`.
    AdminUserUpdate,
    /// Bit `1 << 48`, named `admin:orgs:delete`.
    AdminOrgDelete,
    /// Bit `1 << 49`, named `admin:orgs:update`.
    AdminOrgUpdate,
}

impl ApiKeyScope {
    /// The bit of this flag.
    pub open spec fn spec_bit(self) -> u64 {
        match self {
            ApiKeyScope::UserAccess => 0x1,
            ApiKeyScope::UserUpdate => 0x2,
            ApiKeyScope::UserDelete => 0x4,
            ApiKeyScope::UserConnections => 0x8,
            ApiKeyScope::UserAvatarUpdate => 0x10,
            ApiKeyScope::UserSessionsList => 0x20,
            ApiKeyScope::RepoAccess => 0x40,
            ApiKeyScope::RepoCreate => 0x80,
            ApiKeyScope::RepoDelete => 0x100,
            ApiKeyScope::RepoUpdate => 0x200,
            ApiKeyScope::RepoIconUpdate => 0x400,
            ApiKeyScope::RepoReleaseCreate => 0x800,
            ApiKeyScope::RepoReleaseUpdate => 0x1000,
            ApiKeyScope::RepoReleaseDelete => 0x2000,
            ApiKeyScope::RepoMembersList => 0x4000,
            ApiKeyScope::RepoMemberUpdate => 0x8000,
            ApiKeyScope::RepoMemberKick => 0x10000,
            ApiKeyScope::RepoMemberInviteAccess => 0x20000,
            ApiKeyScope::RepoMemberInviteDelete => 0x40000,
            ApiKeyScope::RepoWebhookList => 0x80000,
            ApiKeyScope::RepoWebhookCreate => 0x100000,
            ApiKeyScope::RepoWebhookUpdate => 0x200000,
            ApiKeyScope::RepoWebhookDelete => 0x400000,
            ApiKeyScope::RepoWebhookEventAccess => 0x800000,
            ApiKeyScope::RepoWebhookEventDelete => 0x1000000,
            ApiKeyScope::ApiKeyView => 0x2000000,
            ApiKeyScope::ApiKeyList => 0x4000000,
            ApiKeyScope::ApiKeyCreate => 0x8000000,
            ApiKeyScope::ApiKeyDelete => 0x10000000,
            ApiKeyScope::ApiKeyUpdate => 0x20000000,
            ApiKeyScope::OrgAccess => 0x40000000,
            ApiKeyScope::OrgCreate => 0x80000000,
            ApiKeyScope::OrgUpdate => 0x100000000,
            ApiKeyScope::OrgDelete => 0x200000000,
            ApiKeyScope::OrgMemberInvites => 0x400000000,
            ApiKeyScope::OrgMemberList => 0x800000000,
            ApiKeyScope::OrgMemberKick => 0x1000000000,
            ApiKeyScope::OrgMemberUpdate => 0x2000000000,
            ApiKeyScope::OrgWebhookList => 0x4000000000,
            ApiKeyScope::OrgWebhookCreate => 0x8000000000,
            ApiKeyScope::OrgWebhookUpdate => 0x10000000000,
            ApiKeyScope::OrgWebhookDelete => 0x20000000000,
            ApiKeyScope::OrgWebhookEventList => 0x40000000000,
            ApiKeyScope::OrgWebhookEventDelete => 0x80000000000,
            ApiKeyScope::AdminStats => 0x100000000000,
            ApiKeyScope::AdminUserCreate => 0x200000000000,
            ApiKeyScope::AdminUserDelete => 0x400000000000,
            ApiKeyScope::AdminUserUpdate => 0x800000000000,
            ApiKeyScope::AdminOrgDelete => 0x1000000000000,
            ApiKeyScope::AdminOrgUpdate => 0x2000000000000,
        }
    }

    /// The humane name of this flag.
    pub open spec fn spec_name(self) -> Seq<char> {
        match self {
            ApiKeyScope::UserAccess => "user:access"@,
            ApiKeyScope::UserUpdate => "user:update"@,
            ApiKeyScope::UserDelete => "user:delete"@,
            ApiKeyScope::UserConnections => "user:connections"@,
            ApiKeyScope::UserAvatarUpdate => "user:avatar:update"@,
            ApiKeyScope::UserSessionsList => "user:sessions:list"@,
            ApiKeyScope::RepoAccess => "repo:access"@,
            ApiKeyScope::RepoCreate => "repo:create"@,
            ApiKeyScope::RepoDelete => "repo:delete"@,
            ApiKeyScope::RepoUpdate => "repo:update"@,
            ApiKeyScope::RepoIconUpdate => "repo:icon:update"@,
            ApiKeyScope::RepoReleaseCreate => "repo:releases:create"@,
            ApiKeyScope::RepoReleaseUpdate => "repo:releases:update"@,
            ApiKeyScope::RepoReleaseDelete => "repo:releases:delete"@,
            ApiKeyScope::RepoMembersList => "repo:members:list"@,
            ApiKeyScope::RepoMemberUpdate => "repo:members:update"@,
            ApiKeyScope::RepoMemberKick => "repo:members:kick"@,
            ApiKeyScope::RepoMemberInviteAccess => "repo:members:invites:access"@,
            ApiKeyScope::RepoMemberInviteDelete => "repo:members:invites:delete"@,
            ApiKeyScope::RepoWebhookList => "repo:webhooks:list"@,
            ApiKeyScope::RepoWebhookCreate => "repo:webhooks:create"@,
            ApiKeyScope::RepoWebhookUpdate => "repo:webhooks:update"@,
            ApiKeyScope::RepoWebhookDelete => "repo:webhooks:delete"@,
            ApiKeyScope::RepoWebhookEventAccess => "repo:webhooks:events:access"@,
            ApiKeyScope::RepoWebhookEventDelete => "repo:webhooks:events:delete"@,
            ApiKeyScope::ApiKeyView => "apikeys:view"@,
            ApiKeyScope::ApiKeyList => "apikeys:list"@,
            ApiKeyScope::ApiKeyCreate => "apikeys:create"@,
            ApiKeyScope::ApiKeyDelete => "apikeys:delete"@,
            ApiKeyScope::ApiKeyUpdate => "apikeys:update"@,
            ApiKeyScope::OrgAccess => "org:access"@,
            ApiKeyScope::OrgCreate => "org:create"@,
            ApiKeyScope::OrgUpdate => "org:update"@,
            ApiKeyScope::OrgDelete => "org:delete"@,
            ApiKeyScope::OrgMemberInvites => "org:members:invites"@,
            ApiKeyScope::OrgMemberList => "org:members:list"@,
            ApiKeyScope::OrgMemberKick => "org:members:kick"@,
            ApiKeyScope::OrgMemberUpdate => "org:members:update"@,
            ApiKeyScope::OrgWebhookList => "org:webhooks:list"@,
            ApiKeyScope::OrgWebhookCreate => "org:webhooks:create"@,
            ApiKeyScope::OrgWebhookUpdate => "org:webhooks:update"@,
            ApiKeyScope::OrgWebhookDelete => "org:webhooks:delete"@,
            ApiKeyScope::OrgWebhookEventList => "org:webhooks:events:list"@,
            ApiKeyScope::OrgWebhookEventDelete => "org:webhooks:events:delete"@,
            ApiKeyScope::AdminStats => "admin:stats"@,
            ApiKeyScope::AdminUserCreate => "admin:users:create"@,
            ApiKeyScope::AdminUserDelete => "admin:users:delete"@,
            ApiKeyScope::AdminUserUpdate => "admin:users:update"@,
            ApiKeyScope::AdminOrgDelete => "admin:orgs:delete"@,
            ApiKeyScope::AdminOrgUpdate => "admin:orgs:update"@,
        }
    }

    /// The names of the flag table strictly ascend.
    proof fn lemma_flag_names_ascend()
        ensures
            names_ascending(Self::spec_flags()),
    {
        let flags = Self::spec_flags();
        assert(seq_lt(flags[0].0, flags[1].0)) by {
            reveal_strlit("admin:orgs:delete");
            reveal_strlit("admin:orgs:update");
            assert(flags[0].0 == "admin:orgs:delete"@ && flags[1].0 == "admin:orgs:update"@);
            assert("admin:orgs:delete"@.take(11) =~= "admin:orgs:update"@.take(11));
            lemma_seq_lt_at("admin:orgs:delete"@, "admin:orgs:update"@, 11);
        }
        assert(seq_lt(flags[1].0, flags[2].0)) by {
            reveal_strlit("admin:orgs:update");
            reveal_strlit("admin:stats");
            assert(flags[1].0 == "admin:orgs:update"@ && flags[2].0 == "admin:stats"@);
            assert("admin:orgs:update"@.take(6) =~= "admin:stats"@.take(6));
            lemma_seq_lt_at("admin:orgs:update"@, "admin:stats"@, 6);
        }
        assert(seq_lt(flags[2].0, flags[3].0)) by {
            reveal_strlit("admin:stats");
            reveal_strlit("admin:users:create");
            assert(flags[2].0 == "admin:stats"@ && flags[3].0 == "admin:users:create"@);
            assert("admin:stats"@.take(6) =~= "admin:users:create"@.take(6));
            lemma_seq_lt_at("admin:stats"@, "admin:users:create"@, 6);
        }
        assert(seq_lt(flags[3].0, flags[4].0)) by {
            reveal_strlit("admin:users:create");
            reveal_strlit("admin:users:delete");
            assert(flags[3].0 == "admin:users:create"@ && flags[4].0 == "admin:users:delete"@);
            assert("admin:users:create"@.take(12) =~= "admin:users:delete"@.take(12));
            lemma_seq_lt_at("admin:users:create"@, "admin:users:delete"@, 12);
        }
        assert(seq_lt(flags[4].0, flags[5].0)) by {
            reveal_strlit("admin:users:delete");
            reveal_strlit("admin:users:update");
            assert(flags[4].0 == "admin:users:delete"@ && flags[5].0 == "admin:users:update"@);
            assert("admin:users:delete"@.take(12) =~= "admin:users:update"@.take(12));
            lemma_seq_lt_at("admin:users:delete"@, "admin:users:update"@, 12);
        }
        assert(seq_lt(flags[5].0, flags[6].0)) by {
            reveal_strlit("admin:users:update");
            reveal_strlit("apikeys:create");
            assert(flags[5].0 == "admin:users:update"@ && flags[6].0 == "apikeys:create"@);
            assert("admin:users:update"@.take(1) =~= "apikeys:create"@.take(1));
            lemma_seq_lt_at("admin:users:update"@, "apikeys:create"@, 1);
        }
        assert(seq_lt(flags[6].0, flags[7].0)) by {
            reveal_strlit("apikeys:create");
            reveal_strlit("apikeys:delete");
            assert(flags[6].0 == "apikeys:create"@ && flags[7].0 == "apikeys:delete"@);
            assert("apikeys:create"@.take(8) =~= "apikeys:delete"@.take(8));
            lemma_seq_lt_at("apikeys:create"@, "apikeys:delete"@, 8);
        }
        assert(seq_lt(flags[7].0, flags[8].0)) by {
            reveal_strlit("apikeys:delete");
            reveal_strlit("apikeys:list");
            assert(flags[7].0 == "apikeys:delete"@ && flags[8].0 == "apikeys:list"@);
            assert("apikeys:delete"@.take(8) =~= "apikeys:list"@.take(8));
            lemma_seq_lt_at("apikeys:delete"@, "apikeys:list"@, 8);
        }
        assert(seq_lt(flags[8].0, flags[9].0)) by {
            reveal_strlit("apikeys:list");
            reveal_strlit("apikeys:update");
            assert(flags[8].0 == "apikeys:list"@ && flags[9].0 == "apikeys:update"@);
            assert("apikeys:list"@.take(8) =~= "apikeys:update"@.take(8));
            lemma_seq_lt_at("apikeys:list"@, "apikeys:update"@, 8);
        }
        assert(seq_lt(flags[9].0, flags[10].0)) by {
            reveal_strlit("apikeys:update");
            reveal_strlit("apikeys:view");
            assert(flags[9].0 == "apikeys:update"@ && flags[10].0 == "apikeys:view"@);
            assert("apikeys:update"@.take(8) =~= "apikeys:view"@.take(8));
            lemma_seq_lt_at("apikeys:update"@, "apikeys:view"@, 8);
        }
        assert(seq_lt(flags[10].0, flags[11].0)) by {
            reveal_strlit("apikeys:view");
            reveal_strlit("org:access");
            assert(flags[10].0 == "apikeys:view"@ && flags[11].0 == "org:access"@);
            assert("apikeys:view"@.take(0) =~= "org:access"@.take(0));
            lemma_seq_lt_at("apikeys:view"@, "org:access"@, 0);
        }
        assert(seq_lt(flags[11].0, flags[12].0)) by {
            reveal_strlit("org:access");
            reveal_strlit("org:create");
            assert(flags[11].0 == "org:access"@ && flags[12].0 == "org:create"@);
            assert("org:access"@.take(4) =~= "org:create"@.take(4));
            lemma_seq_lt_at("org:access"@, "org:create"@, 4);
        }
        assert(seq_lt(flags[12].0, flags[13].0)) by {
            reveal_strlit("org:create");
            reveal_strlit("org:delete");
            assert(flags[12].0 == "org:create"@ && flags[13].0 == "org:delete"@);
            assert("org:create"@.take(4) =~= "org:delete"@.take(4));
            lemma_seq_lt_at("org:create"@, "org:delete"@, 4);
        }
        assert(seq_lt(flags[13].0, flags[14].0)) by {
            reveal_strlit("org:delete");
            reveal_strlit("org:members:invites");
            assert(flags[13].0 == "org:delete"@ && flags[14].0 == "org:members:invites"@);
            assert("org:delete"@.take(4) =~= "org:members:invites"@.take(4));
            lemma_seq_lt_at("org:delete"@, "org:members:invites"@, 4);
        }
        assert(seq_lt(flags[14].0, flags[15].0)) by {
            reveal_strlit("org:members:invites");
            reveal_strlit("org:members:kick");
            assert(flags[14].0 == "org:members:invites"@ && flags[15].0 == "org:members:kick"@);
            assert("org:members:invites"@.take(12) =~= "org:members:kick"@.take(12));
            lemma_seq_lt_at("org:members:invites"@, "org:members:kick"@, 12);
        }
        assert(seq_lt(flags[15].0, flags[16].0)) by {
            reveal_strlit("org:members:kick");
            reveal_strlit("org:members:list");
            assert(flags[15].0 == "org:members:kick"@ && flags[16].0 == "org:members:list"@);
            assert("org:members:kick"@.take(12) =~= "org:members:list"@.take(12));
            lemma_seq_lt_at("org:members:kick"@, "org:members:list"@, 12);
        }
        assert(seq_lt(flags[16].0, flags[17].0)) by {
            reveal_strlit("org:members:list");
            reveal_strlit("org:members:update");
            assert(flags[16].0 == "org:members:list"@ && flags[17].0 == "org:members:update"@);
            assert("org:members:list"@.take(12) =~= "org:members:update"@.take(12));
            lemma_seq_lt_at("org:members:list"@, "org:members:update"@, 12);
        }
        assert(seq_lt(flags[17].0, flags[18].0)) by {
            reveal_strlit("org:members:update");
            reveal_strlit("org:update");
            assert(flags[17].0 == "org:members:update"@ && flags[18].0 == "org:update"@);
            assert("org:members:update"@.take(4) =~= "org:update"@.take(4));
            lemma_seq_lt_at("org:members:update"@, "org:update"@, 4);
        }
        assert(seq_lt(flags[18].0, flags[19].0)) by {
            reveal_strlit("org:update");
            reveal_strlit("org:webhooks:create");
            assert(flags[18].0 == "org:update"@ && flags[19].0 == "org:webhooks:create"@);
            assert("org:update"@.take(4) =~= "org:webhooks:create"@.take(4));
            lemma_seq_lt_at("org:update"@, "org:webhooks:create"@, 4);
        }
        assert(seq_lt(flags[19].0, flags[20].0)) by {
            reveal_strlit("org:webhooks:create");
            reveal_strlit("org:webhooks:delete");
            assert(flags[19].0 == "org:webhooks:create"@ && flags[20].0 == "org:webhooks:delete"@);
            assert("org:webhooks:create"@.take(13) =~= "org:webhooks:delete"@.take(13));
            lemma_seq_lt_at("org:webhooks:create"@, "org:webhooks:delete"@, 13);
        }
        assert(seq_lt(flags[20].0, flags[21].0)) by {
            reveal_strlit("org:webhooks:delete");
            reveal_strlit("org:webhooks:events:delete");
            assert(flags[20].0 == "org:webhooks:delete"@ && flags[21].0 == "org:webhooks:events:delete"@);
            assert("org:webhooks:delete"@.take(13) =~= "org:webhooks:events:delete"@.take(13));
            lemma_seq_lt_at("org:webhooks:delete"@, "org:webhooks:events:delete"@, 13);
        }
        assert(seq_lt(flags[21].0, flags[22].0)) by {
            reveal_strlit("org:webhooks:events:delete");
            reveal_strlit("org:webhooks:events:list");
            assert(flags[21].0 == "org:webhooks:events:delete"@ && flags[22].0 == "org:webhooks:events:list"@);
            assert("org:webhooks:events:delete"@.take(20) =~= "org:webhooks:events:list"@.take(20));
            lemma_seq_lt_at("org:webhooks:events:delete"@, "org:webhooks:events:list"@, 20);
        }
        assert(seq_lt(flags[22].0, flags[23].0)) by {
            reveal_strlit("org:webhooks:events:list");
            reveal_strlit("org:webhooks:list");
            assert(flags[22].0 == "org:webhooks:events:list"@ && flags[23].0 == "org:webhooks:list"@);
            assert("org:webhooks:events:list"@.take(13) =~= "org:webhooks:list"@.take(13));
            lemma_seq_lt_at("org:webhooks:events:list"@, "org:webhooks:list"@, 13);
        }
        assert(seq_lt(flags[23].0, flags[24].0)) by {
            reveal_strlit("org:webhooks:list");
            reveal_strlit("org:webhooks:update");
            assert(flags[23].0 == "org:webhooks:list"@ && flags[24].0 == "org:webhooks:update"@);
            assert("org:webhooks:list"@.take(13) =~= "org:webhooks:update"@.take(13));
            lemma_seq_lt_at("org:webhooks:list"@, "org:webhooks:update"@, 13);
        }
        assert(seq_lt(flags[24].0, flags[25].0)) by {
            reveal_strlit("org:webhooks:update");
            reveal_strlit("repo:access");
            assert(flags[24].0 == "org:webhooks:update"@ && flags[25].0 == "repo:access"@);
            assert("org:webhooks:update"@.take(0) =~= "repo:access"@.take(0));
            lemma_seq_lt_at("org:webhooks:update"@, "repo:access"@, 0);
        }
        assert(seq_lt(flags[25].0, flags[26].0)) by {
            reveal_strlit("repo:access");
            reveal_strlit("repo:create");
            assert(flags[25].0 == "repo:access"@ && flags[26].0 == "repo:create"@);
            assert("repo:access"@.take(5) =~= "repo:create"@.take(5));
            lemma_seq_lt_at("repo:access"@, "repo:create"@, 5);
        }
        assert(seq_lt(flags[26].0, flags[27].0)) by {
            reveal_strlit("repo:create");
            reveal_strlit("repo:delete");
            assert(flags[26].0 == "repo:create"@ && flags[27].0 == "repo:delete"@);
            assert("repo:create"@.take(5) =~= "repo:delete"@.take(5));
            lemma_seq_lt_at("repo:create"@, "repo:delete"@, 5);
        }
        assert(seq_lt(flags[27].0, flags[28].0)) by {
            reveal_strlit("repo:delete");
            reveal_strlit("repo:icon:update");
            assert(flags[27].0 == "repo:delete"@ && flags[28].0 == "repo:icon:update"@);
            assert("repo:delete"@.take(5) =~= "repo:icon:update"@.take(5));
            lemma_seq_lt_at("repo:delete"@, "repo:icon:update"@, 5);
        }
        assert(seq_lt(flags[28].0, flags[29].0)) by {
            reveal_strlit("repo:icon:update");
            reveal_strlit("repo:members:invites:access");
            assert(flags[28].0 == "repo:icon:update"@ && flags[29].0 == "repo:members:invites:access"@);
            assert("repo:icon:update"@.take(5) =~= "repo:members:invites:access"@.take(5));
            lemma_seq_lt_at("repo:icon:update"@, "repo:members:invites:access"@, 5);
        }
        assert(seq_lt(flags[29].0, flags[30].0)) by {
            reveal_strlit("repo:members:invites:access");
            reveal_strlit("repo:members:invites:delete");
            assert(flags[29].0 == "repo:members:invites:access"@ && flags[30].0 == "repo:members:invites:delete"@);
            assert("repo:members:invites:access"@.take(21) =~= "repo:members:invites:delete"@.take(21));
            lemma_seq_lt_at("repo:members:invites:access"@, "repo:members:invites:delete"@, 21);
        }
        assert(seq_lt(flags[30].0, flags[31].0)) by {
            reveal_strlit("repo:members:invites:delete");
            reveal_strlit("repo:members:kick");
            assert(flags[30].0 == "repo:members:invites:delete"@ && flags[31].0 == "repo:members:kick"@);
            assert("repo:members:invites:delete"@.take(13) =~= "repo:members:kick"@.take(13));
            lemma_seq_lt_at("repo:members:invites:delete"@, "repo:members:kick"@, 13);
        }
        assert(seq_lt(flags[31].0, flags[32].0)) by {
            reveal_strlit("repo:members:kick");
            reveal_strlit("repo:members:list");
            assert(flags[31].0 == "repo:members:kick"@ && flags[32].0 == "repo:members:list"@);
            assert("repo:members:kick"@.take(13) =~= "repo:members:list"@.take(13));
            lemma_seq_lt_at("repo:members:kick"@, "repo:members:list"@, 13);
        }
        assert(seq_lt(flags[32].0, flags[33].0)) by {
            reveal_strlit("repo:members:list");
            reveal_strlit("repo:members:update");
            assert(flags[32].0 == "repo:members:list"@ && flags[33].0 == "repo:members:update"@);
            assert("repo:members:list"@.take(13) =~= "repo:members:update"@.take(13));
            lemma_seq_lt_at("repo:members:list"@, "repo:members:update"@, 13);
        }
        assert(seq_lt(flags[33].0, flags[34].0)) by {
            reveal_strlit("repo:members:update");
            reveal_strlit("repo:releases:create");
            assert(flags[33].0 == "repo:members:update"@ && flags[34].0 == "repo:releases:create"@);
            assert("repo:members:update"@.take(5) =~= "repo:releases:create"@.take(5));
            lemma_seq_lt_at("repo:members:update"@, "repo:releases:create"@, 5);
        }
        assert(seq_lt(flags[34].0, flags[35].0)) by {
            reveal_strlit("repo:releases:create");
            reveal_strlit("repo:releases:delete");
            assert(flags[34].0 == "repo:releases:create"@ && flags[35].0 == "repo:releases:delete"@);
            assert("repo:releases:create"@.take(14) =~= "repo:releases:delete"@.take(14));
            lemma_seq_lt_at("repo:releases:create"@, "repo:releases:delete"@, 14);
        }
        assert(seq_lt(flags[35].0, flags[36].0)) by {
            reveal_strlit("repo:releases:delete");
            reveal_strlit("repo:releases:update");
            assert(flags[35].0 == "repo:releases:delete"@ && flags[36].0 == "repo:releases:update"@);
            assert("repo:releases:delete"@.take(14) =~= "repo:releases:update"@.take(14));
            lemma_seq_lt_at("repo:releases:delete"@, "repo:releases:update"@, 14);
        }
        assert(seq_lt(flags[36].0, flags[37].0)) by {
            reveal_strlit("repo:releases:update");
            reveal_strlit("repo:update");
            assert(flags[36].0 == "repo:releases:update"@ && flags[37].0 == "repo:update"@);
            assert("repo:releases:update"@.take(5) =~= "repo:update"@.take(5));
            lemma_seq_lt_at("repo:releases:update"@, "repo:update"@, 5);
        }
        assert(seq_lt(flags[37].0, flags[38].0)) by {
            reveal_strlit("repo:update");
            reveal_strlit("repo:webhooks:create");
            assert(flags[37].0 == "repo:update"@ && flags[38].0 == "repo:webhooks:create"@);
            assert("repo:update"@.take(5) =~= "repo:webhooks:create"@.take(5));
            lemma_seq_lt_at("repo:update"@, "repo:webhooks:create"@, 5);
        }
        assert(seq_lt(flags[38].0, flags[39].0)) by {
            reveal_strlit("repo:webhooks:create");
            reveal_strlit("repo:webhooks:delete");
            assert(flags[38].0 == "repo:webhooks:create"@ && flags[39].0 == "repo:webhooks:delete"@);
            assert("repo:webhooks:create"@.take(14) =~= "repo:webhooks:delete"@.take(14));
            lemma_seq_lt_at("repo:webhooks:create"@, "repo:webhooks:delete"@, 14);
        }
        assert(seq_lt(flags[39].0, flags[40].0)) by {
            reveal_strlit("repo:webhooks:delete");
            reveal_strlit("repo:webhooks:events:access");
            assert(flags[39].0 == "repo:webhooks:delete"@ && flags[40].0 == "repo:webhooks:events:access"@);
            assert("repo:webhooks:delete"@.take(14) =~= "repo:webhooks:events:access"@.take(14));
            lemma_seq_lt_at("repo:webhooks:delete"@, "repo:webhooks:events:access"@, 14);
        }
        assert(seq_lt(flags[40].0, flags[41].0)) by {
            reveal_strlit("repo:webhooks:events:access");
            reveal_strlit("repo:webhooks:events:delete");
            assert(flags[40].0 == "repo:webhooks:events:access"@ && flags[41].0 == "repo:webhooks:events:delete"@);
            assert("repo:webhooks:events:access"@.take(21) =~= "repo:webhooks:events:delete"@.take(21));
            lemma_seq_lt_at("repo:webhooks:events:access"@, "repo:webhooks:events:delete"@, 21);
        }
        assert(seq_lt(flags[41].0, flags[42].0)) by {
            reveal_strlit("repo:webhooks:events:delete");
            reveal_strlit("repo:webhooks:list");
            assert(flags[41].0 == "repo:webhooks:events:delete"@ && flags[42].0 == "repo:webhooks:list"@);
            assert("repo:webhooks:events:delete"@.take(14) =~= "repo:webhooks:list"@.take(14));
            lemma_seq_lt_at("repo:webhooks:events:delete"@, "repo:webhooks:list"@, 14);
        }
        assert(seq_lt(flags[42].0, flags[43].0)) by {
            reveal_strlit("repo:webhooks:list");
            reveal_strlit("repo:webhooks:update");
            assert(flags[42].0 == "repo:webhooks:list"@ && flags[43].0 == "repo:webhooks:update"@);
            assert("repo:webhooks:list"@.take(14) =~= "repo:webhooks:update"@.take(14));
            lemma_seq_lt_at("repo:webhooks:list"@, "repo:webhooks:update"@, 14);
        }
        assert(seq_lt(flags[43].0, flags[44].0)) by {
            reveal_strlit("repo:webhooks:update");
            reveal_strlit("user:access");
            assert(flags[43].0 == "repo:webhooks:update"@ && flags[44].0 == "user:access"@);
            assert("repo:webhooks:update"@.take(0) =~= "user:access"@.take(0));
            lemma_seq_lt_at("repo:webhooks:update"@, "user:access"@, 0);
        }
        assert(seq_lt(flags[44].0, flags[45].0)) by {
            reveal_strlit("user:access");
            reveal_strlit("user:avatar:update");
            assert(flags[44].0 == "user:access"@ && flags[45].0 == "user:avatar:update"@);
            assert("user:access"@.take(6) =~= "user:avatar:update"@.take(6));
            lemma_seq_lt_at("user:access"@, "user:avatar:update"@, 6);
        }
        assert(seq_lt(flags[45].0, flags[46].0)) by {
            reveal_strlit("user:avatar:update");
            reveal_strlit("user:connections");
            assert(flags[45].0 == "user:avatar:update"@ && flags[46].0 == "user:connections"@);
            assert("user:avatar:update"@.take(5) =~= "user:connections"@.take(5));
            lemma_seq_lt_at("user:avatar:update"@, "user:connections"@, 5);
        }
        assert(seq_lt(flags[46].0, flags[47].0)) by {
            reveal_strlit("user:connections");
            reveal_strlit("user:delete");
            assert(flags[46].0 == "user:connections"@ && flags[47].0 == "user:delete"@);
            assert("user:connections"@.take(5) =~= "user:delete"@.take(5));
            lemma_seq_lt_at("user:connections"@, "user:delete"@, 5);
        }
        assert(seq_lt(flags[47].0, flags[48].0)) by {
            reveal_strlit("user:delete");
            reveal_strlit("user:sessions:list");
            assert(flags[47].0 == "user:delete"@ && flags[48].0 == "user:sessions:list"@);
            assert("user:delete"@.take(5) =~= "user:sessions:list"@.take(5));
            lemma_seq_lt_at("user:delete"@, "user:sessions:list"@, 5);
        }
        assert(seq_lt(flags[48].0, flags[49].0)) by {
            reveal_strlit("user:sessions:list");
            reveal_strlit("user:update");
            assert(flags[48].0 == "user:sessions:list"@ && flags[49].0 == "user:update"@);
            assert("user:sessions:list"@.take(5) =~= "user:update"@.take(5));
            lemma_seq_lt_at("user:sessions:list"@, "user:update"@, 5);
        }
        assert forall|i: int| 0 <= i < flags.len() - 1 implies seq_lt(#[trigger] flags[i].0, flags[i + 1].0) by {
            if i == 0 {
                assert(seq_lt(flags[0].0, flags[1].0));
            } else if i == 1 {
                assert(seq_lt(flags[1].0, flags[2].0));
            } else if i == 2 {
                assert(seq_lt(flags[2].0, flags[3].0));
            } else if i == 3 {
                assert(seq_lt(flags[3].0, flags[4].0));
            } else if i == 4 {
                assert(seq_lt(flags[4].0, flags[5].0));
            } else if i == 5 {
                assert(seq_lt(flags[5].0, flags[6].0));
            } else if i == 6 {
                assert(seq_lt(flags[6].0, flags[7].0));
            } else if i == 7 {
                assert(seq_lt(flags[7].0, flags[8].0));
            } else if i == 8 {
                assert(seq_lt(flags[8].0, flags[9].0));
            } else if i == 9 {
                assert(seq_lt(flags[9].0, flags[10].0));
            } else if i == 10 {
                assert(seq_lt(flags[10].0, flags[11].0));
            } else if i == 11 {
                assert(seq_lt(flags[11].0, flags[12].0));
            } else if i == 12 {
                assert(seq_lt(flags[12].0, flags[13].0));
            } else if i == 13 {
                assert(seq_lt(flags[13].0, flags[14].0));
            } else if i == 14 {
                assert(seq_lt(flags[14].0, flags[15].0));
            } else if i == 15 {
                assert(seq_lt(flags[15].0, flags[16].0));
            } else if i == 16 {
                assert(seq_lt(flags[16].0, flags[17].0));
            } else if i == 17 {
                assert(seq_lt(flags[17].0, flags[18].0));
            } else if i == 18 {
                assert(seq_lt(flags[18].0, flags[19].0));
            } else if i == 19 {
                assert(seq_lt(flags[19].0, flags[20].0));
            } else if i == 20 {
                assert(seq_lt(flags[20].0, flags[21].0));
            } else if i == 21 {
                assert(seq_lt(flags[21].0, flags[22].0));
            } else if i == 22 {
                assert(seq_lt(flags[22].0, flags[23].0));
            } else if i == 23 {
                assert(seq_lt(flags[23].0, flags[24].0));
            } else if i == 24 {
                assert(seq_lt(flags[24].0, flags[25].0));
            } else if i == 25 {
                assert(seq_lt(flags[25].0, flags[26].0));
            } else if i == 26 {
                assert(seq_lt(flags[26].0, flags[27].0));
            } else if i == 27 {
                assert(seq_lt(flags[27].0, flags[28].0));
            } else if i == 28 {
                assert(seq_lt(flags[28].0, flags[29].0));
            } else if i == 29 {
                assert(seq_lt(flags[29].0, flags[30].0));
            } else if i == 30 {
                assert(seq_lt(flags[30].0, flags[31].0));
            } else if i == 31 {
                assert(seq_lt(flags[31].0, flags[32].0));
            } else if i == 32 {
                assert(seq_lt(flags[32].0, flags[33].0));
            } else if i == 33 {
                assert(seq_lt(flags[33].0, flags[34].0));
            } else if i == 34 {
                assert(seq_lt(flags[34].0, flags[35].0));
            } else if i == 35 {
                assert(seq_lt(flags[35].0, flags[36].0));
            } else if i == 36 {
                assert(seq_lt(flags[36].0, flags[37].0));
            } else if i == 37 {
                assert(seq_lt(flags[37].0, flags[38].0));
            } else if i == 38 {
                assert(seq_lt(flags[38].0, flags[39].0));
            } else if i == 39 {
                assert(seq_lt(flags[39].0, flags[40].0));
            } else if i == 40 {
                assert(seq_lt(flags[40].0, flags[41].0));
            } else if i == 41 {
                assert(seq_lt(flags[41].0, flags[42].0));
            } else if i == 42 {
                assert(seq_lt(flags[42].0, flags[43].0));
            } else if i == 43 {
                assert(seq_lt(flags[43].0, flags[44].0));
            } else if i == 44 {
                assert(seq_lt(flags[44].0, flags[45].0));
            } else if i == 45 {
                assert(seq_lt(flags[45].0, flags[46].0));
            } else if i == 46 {
                assert(seq_lt(flags[46].0, flags[47].0));
            } else if i == 47 {
                assert(seq_lt(flags[47].0, flags[48].0));
            } else {
                assert(seq_lt(flags[48].0, flags[49].0));
            }
        }
        assert(names_ascend_stepwise(flags));
        lemma_names_ascending(flags);
    }

    /// Each flag's name and bit form an entry of the flag table, the
    /// table that `flags` lists and `Bitfield::flags` reads names from.
    pub proof fn law_flag_in_table(self)
        ensures
            Self::spec_flags().contains((self.spec_name(), self.spec_bit())),
    {
        let flags = Self::spec_flags();
        match self {
            ApiKeyScope::UserAccess => assert(flags[44] == (self.spec_name(), self.spec_bit())),
            ApiKeyScope::UserUpdate => assert(flags[49] == (self.spec_name(), self.spec_bit())),
            ApiKeyScope::UserDelete => assert(flags[47] == (self.spec_name(), self.spec_bit())),
            ApiKeyScope::UserConnections => assert(flags[46] == (self.spec_name(), self.spec_bit())),
            ApiKeyScope::UserAvatarUpdate => assert(flags[45] == (self.spec_name(), self.spec_bit())),
            ApiKeyScope::UserSessionsList => assert(flags[48] == (self.spec_name(), self.spec_bit())),
            ApiKeyScope::RepoAccess => assert(flags[25] == (self.spec_name(), self.spec_bit())),
            ApiKeyScope::RepoCreate => assert(flags[26] == (self.spec_name(), self.spec_bit())),
            ApiKeyScope::RepoDelete => assert(flags[27] == (self.spec_name(), self.spec_bit())),
            ApiKeyScope::RepoUpdate => assert(flags[37] == (self.spec_name(), self.spec_bit())),
            ApiKeyScope::RepoIconUpdate => assert(flags[28] == (self.spec_name(), self.spec_bit())),
            ApiKeyScope::RepoReleaseCreate => assert(flags[34] == (self.spec_name(), self.spec_bit())),
            ApiKeyScope::RepoReleaseUpdate => assert(flags[36] == (self.spec_name(), self.spec_bit())),
            ApiKeyScope::RepoReleaseDelete => assert(flags[35] == (self.spec_name(), self.spec_bit())),
            ApiKeyScope::RepoMembersList => assert(flags[32] == (self.spec_name(), self.spec_bit())),
            ApiKeyScope::RepoMemberUpdate => assert(flags[33] == (self.spec_name(), self.spec_bit())),
            ApiKeyScope::RepoMemberKick => assert(flags[31] == (self.spec_name(), self.spec_bit())),
            ApiKeyScope::RepoMemberInviteAccess => assert(flags[29] == (self.spec_name(), self.spec_bit())),
            ApiKeyScope::RepoMemberInviteDelete => assert(flags[30] == (self.spec_name(), self.spec_bit())),
            ApiKeyScope::RepoWebhookList => assert(flags[42] == (self.spec_name(), self.spec_bit())),
            ApiKeyScope::RepoWebhookCreate => assert(flags[38] == (self.spec_name(), self.spec_bit())),
            ApiKeyScope::RepoWebhookUpdate => assert(flags[43] == (self.spec_name(), self.spec_bit())),
            ApiKeyScope::RepoWebhookDelete => assert(flags[39] == (self.spec_name(), self.spec_bit())),
            ApiKeyScope::RepoWebhookEventAccess => assert(flags[40] == (self.spec_name(), self.spec_bit())),
            ApiKeyScope::RepoWebhookEventDelete => assert(flags[41] == (self.spec_name(), self.spec_bit())),
            ApiKeyScope::ApiKeyView => assert(flags[10] == (self.spec_name(), self.spec_bit())),
            ApiKeyScope::ApiKeyList => assert(flags[8] == (self.spec_name(), self.spec_bit())),
            ApiKeyScope::ApiKeyCreate => assert(flags[6] == (self.spec_name(), self.spec_bit())),
            ApiKeyScope::ApiKeyDelete => assert(flags[7] == (self.spec_name(), self.spec_bit())),
            ApiKeyScope::ApiKeyUpdate => assert(flags[9] == (self.spec_name(), self.spec_bit())),
            ApiKeyScope::OrgAccess => assert(flags[11] == (self.spec_name(), self.spec_bit())),
            ApiKeyScope::OrgCreate => assert(flags[12] == (self.spec_name(), self.spec_bit())),
            ApiKeyScope::OrgUpdate => assert(flags[18] == (self.spec_name(), self.spec_bit())),
            ApiKeyScope::OrgDelete => assert(flags[13] == (self.spec_name(), self.spec_bit())),
            ApiKeyScope::OrgMemberInvites => assert(flags[14] == (self.spec_name(), self.spec_bit())),
            ApiKeyScope::OrgMemberList => assert(flags[16] == (self.spec_name(), self.spec_bit())),
            ApiKeyScope::OrgMemberKick => assert(flags[15] == (self.spec_name(), self.spec_bit())),
            ApiKeyScope::OrgMemberUpdate => assert(flags[17] == (self.spec_name(), self.spec_bit())),
            ApiKeyScope::OrgWebhookList => assert(flags[23] == (self.spec_name(), self.spec_bit())),
            ApiKeyScope::OrgWebhookCreate => assert(flags[19] == (self.spec_name(), self.spec_bit())),
            ApiKeyScope::OrgWebhookUpdate => assert(flags[24] == (self.spec_name(), self.spec_bit())),
            ApiKeyScope::OrgWebhookDelete => assert(flags[20] == (self.spec_name(), self.spec_bit())),
            ApiKeyScope::OrgWebhookEventList => assert(flags[22] == (self.spec_name(), self.spec_bit())),
            ApiKeyScope::OrgWebhookEventDelete => assert(flags[21] == (self.spec_name(), self.spec_bit())),
            ApiKeyScope::AdminStats => assert(flags[2] == (self.spec_name(), self.spec_bit())),
            ApiKeyScope::AdminUserCreate => assert(flags[3] == (self.spec_name(), self.spec_bit())),
            ApiKeyScope::AdminUserDelete => assert(flags[4] == (self.spec_name(), self.spec_bit())),
            ApiKeyScope::AdminUserUpdate => assert(flags[5] == (self.spec_name(), self.spec_bit())),
            ApiKeyScope::AdminOrgDelete => assert(flags[0] == (self.spec_name(), self.spec_bit())),
            ApiKeyScope::AdminOrgUpdate => assert(flags[1] == (self.spec_name(), self.spec_bit())),
        }
    }

    /// The flags in declaration order are the bits `1 << 0`, `1 << 1`, ...:
    /// the `i`-th declared flag is bit `i`.
    pub proof fn law_bit_is_declaration_index(i: int)
        requires
            0 <= i < Self::spec_all().len(),
        ensures
            Self::spec_all()[i].spec_bit() == 1u64 << (i as u64),
    {
        assert(1u64 << 0u64 == 0x1u64 && 1u64 << 1u64 == 0x2u64 && 1u64 << 2u64 == 0x4u64 && 1u64 << 3u64 == 0x8u64 && 1u64 << 4u64 == 0x10u64 && 1u64 << 5u64 == 0x20u64 && 1u64 << 6u64 == 0x40u64 && 1u64 << 7u64 == 0x80u64 && 1u64 << 8u64 == 0x100u64 && 1u64 << 9u64 == 0x200u64 && 1u64 << 10u64 == 0x400u64 && 1u64 << 11u64 == 0x800u64 && 1u64 << 12u64 == 0x1000u64 && 1u64 << 13u64 == 0x2000u64 && 1u64 << 14u64 == 0x4000u64 && 1u64 << 15u64 == 0x8000u64 && 1u64 << 16u64 == 0x10000u64 && 1u64 << 17u64 == 0x20000u64 && 1u64 << 18u64 == 0x40000u64 && 1u64 << 19u64 == 0x80000u64 && 1u64 << 20u64 == 0x100000u64 && 1u64 << 21u64 == 0x200000u64 && 1u64 << 22u64 == 0x400000u64 && 1u64 << 23u64 == 0x800000u64 && 1u64 << 24u64 == 0x1000000u64 && 1u64 << 25u64 == 0x2000000u64 && 1u64 << 26u64 == 0x4000000u64 && 1u64 << 27u64 == 0x8000000u64 && 1u64 << 28u64 == 0x10000000u64 && 1u64 << 29u64 == 0x20000000u64 && 1u64 << 30u64 == 0x40000000u64 && 1u64 << 31u64 == 0x80000000u64 && 1u64 << 32u64 == 0x100000000u64 && 1u64 << 33u64 == 0x200000000u64 && 1u64 << 34u64 == 0x400000000u64 && 1u64 << 35u64 == 0x800000000u64 && 1u64 << 36u64 == 0x1000000000u64 && 1u64 << 37u64 == 0x2000000000u64 && 1u64 << 38u64 == 0x4000000000u64 && 1u64 << 39u64 == 0x8000000000u64 && 1u64 << 40u64 == 0x10000000000u64 && 1u64 << 41u64 == 0x20000000000u64 && 1u64 << 42u64 == 0x40000000000u64 && 1u64 << 43u64 == 0x80000000000u64 && 1u64 << 44u64 == 0x100000000000u64 && 1u64 << 45u64 == 0x200000000000u64 && 1u64 << 46u64 == 0x400000000000u64 && 1u64 << 47u64 == 0x800000000000u64 && 1u64 << 48u64 == 0x1000000000000u64 && 1u64 << 49u64 == 0x2000000000000u64) by (bit_vector);
        let all = Self::spec_all();
        if i == 0 {
            assert(all[0] == ApiKeyScope::UserAccess);
        } else if i == 1 {
            assert(all[1] == ApiKeyScope::UserUpdate);
        } else if i == 2 {
            assert(all[2] == ApiKeyScope::UserDelete);
        } else if i == 3 {
            assert(all[3] == ApiKeyScope::UserConnections);
        } else if i == 4 {
            assert(all[4] == ApiKeyScope::UserAvatarUpdate);
        } else if i == 5 {
            assert(all[5] == ApiKeyScope::UserSessionsList);
        } else if i == 6 {
            assert(all[6] == ApiKeyScope::RepoAccess);
        } else if i == 7 {
            assert(all[7] == ApiKeyScope::RepoCreate);
        } else if i == 8 {
            assert(all[8] == ApiKeyScope::RepoDelete);
        } else if i == 9 {
            assert(all[9] == ApiKeyScope::RepoUpdate);
        } else if i == 10 {
            assert(all[10] == ApiKeyScope::RepoIconUpdate);
        } else if i == 11 {
            assert(all[11] == ApiKeyScope::RepoReleaseCreate);
        } else if i == 12 {
            assert(all[12] == ApiKeyScope::RepoReleaseUpdate);
        } else if i == 13 {
            assert(all[13] == ApiKeyScope::RepoReleaseDelete);
        } else if i == 14 {
            assert(all[14] == ApiKeyScope::RepoMembersList);
        } else if i == 15 {
            assert(all[15] == ApiKeyScope::RepoMemberUpdate);
        } else if i == 16 {
            assert(all[16] == ApiKeyScope::RepoMemberKick);
        } else if i == 17 {
            assert(all[17] == ApiKeyScope::RepoMemberInviteAccess);
        } else if i == 18 {
            assert(all[18] == ApiKeyScope::RepoMemberInviteDelete);
        } else if i == 19 {
            assert(all[19] == ApiKeyScope::RepoWebhookList);
        } else if i == 20 {
            assert(all[20] == ApiKeyScope::RepoWebhookCreate);
        } else if i == 21 {
            assert(all[21] == ApiKeyScope::RepoWebhookUpdate);
        } else if i == 22 {
            assert(all[22] == ApiKeyScope::RepoWebhookDelete);
        } else if i == 23 {
            assert(all[23] == ApiKeyScope::RepoWebhookEventAccess);
        } else if i == 24 {
            assert(all[24] == ApiKeyScope::RepoWebhookEventDelete);
        } else if i == 25 {
            assert(all[25] == ApiKeyScope::ApiKeyView);
        } else if i == 26 {
            assert(all[26] == ApiKeyScope::ApiKeyList);
        } else if i == 27 {
            assert(all[27] == ApiKeyScope::ApiKeyCreate);
        } else if i == 28 {
            assert(all[28] == ApiKeyScope::ApiKeyDelete);
        } else if i == 29 {
            assert(all[29] == ApiKeyScope::ApiKeyUpdate);
        } else if i == 30 {
            assert(all[30] == ApiKeyScope::OrgAccess);
        } else if i == 31 {
            assert(all[31] == ApiKeyScope::OrgCreate);
        } else if i == 32 {
            assert(all[32] == ApiKeyScope::OrgUpdate);
        } else if i == 33 {
            assert(all[33] == ApiKeyScope::OrgDelete);
        } else if i == 34 {
            assert(all[34] == ApiKeyScope::OrgMemberInvites);
        } else if i == 35 {
            assert(all[35] == ApiKeyScope::OrgMemberList);
        } else if i == 36 {
            assert(all[36] == ApiKeyScope::OrgMemberKick);
        } else if i == 37 {
            assert(all[37] == ApiKeyScope::OrgMemberUpdate);
        } else if i == 38 {
            assert(all[38] == ApiKeyScope::OrgWebhookList);
        } else if i == 39 {
            assert(all[39] == ApiKeyScope::OrgWebhookCreate);
        } else if i == 40 {
            assert(all[40] == ApiKeyScope::OrgWebhookUpdate);
        } else if i == 41 {
            assert(all[41] == ApiKeyScope::OrgWebhookDelete);
        } else if i == 42 {
            assert(all[42] == ApiKeyScope::OrgWebhookEventList);
        } else if i == 43 {
            assert(all[43] == ApiKeyScope::OrgWebhookEventDelete);
        } else if i == 44 {
            assert(all[44] == ApiKeyScope::AdminStats);
        } else if i == 45 {
            assert(all[45] == ApiKeyScope::AdminUserCreate);
        } else if i == 46 {
            assert(all[46] == ApiKeyScope::AdminUserDelete);
        } else if i == 47 {
            assert(all[47] == ApiKeyScope::AdminUserUpdate);
        } else if i == 48 {
            assert(all[48] == ApiKeyScope::AdminOrgDelete);
        } else {
            assert(all[49] == ApiKeyScope::AdminOrgUpdate);
        }
    }

    /// The bit of this flag in decimal, as `Display` writes it.
    pub fn to_string(self) -> (r: String)
        ensures
            r@ == decimal(self.spec_bit() as nat),
    {
        u64_to_decimal(self.as_bit())
    }

    /// Returns the bit of this flag.
    pub fn as_bit(self) -> (r: u64)
        ensures
            r == self.spec_bit(),
    {
        match self {
            ApiKeyScope::UserAccess => 0x1,
            ApiKeyScope::UserUpdate => 0x2,
            ApiKeyScope::UserDelete => 0x4,
            ApiKeyScope::UserConnections => 0x8,
            ApiKeyScope::UserAvatarUpdate => 0x10,
            ApiKeyScope::UserSessionsList => 0x20,
            ApiKeyScope::RepoAccess => 0x40,
            ApiKeyScope::RepoCreate => 0x80,
            ApiKeyScope::RepoDelete => 0x100,
            ApiKeyScope::RepoUpdate => 0x200,
            ApiKeyScope::RepoIconUpdate => 0x400,
            ApiKeyScope::RepoReleaseCreate => 0x800,
            ApiKeyScope::RepoReleaseUpdate => 0x1000,
            ApiKeyScope::RepoReleaseDelete => 0x2000,
            ApiKeyScope::RepoMembersList => 0x4000,
            ApiKeyScope::RepoMemberUpdate => 0x8000,
            ApiKeyScope::RepoMemberKick => 0x10000,
            ApiKeyScope::RepoMemberInviteAccess => 0x20000,
            ApiKeyScope::RepoMemberInviteDelete => 0x40000,
            ApiKeyScope::RepoWebhookList => 0x80000,
            ApiKeyScope::RepoWebhookCreate => 0x100000,
            ApiKeyScope::RepoWebhookUpdate => 0x200000,
            ApiKeyScope::RepoWebhookDelete => 0x400000,
            ApiKeyScope::RepoWebhookEventAccess => 0x800000,
            ApiKeyScope::RepoWebhookEventDelete => 0x1000000,
            ApiKeyScope::ApiKeyView => 0x2000000,
            ApiKeyScope::ApiKeyList => 0x4000000,
            ApiKeyScope::ApiKeyCreate => 0x8000000,
            ApiKeyScope::ApiKeyDelete => 0x10000000,
            ApiKeyScope::ApiKeyUpdate => 0x20000000,
            ApiKeyScope::OrgAccess => 0x40000000,
            ApiKeyScope::OrgCreate => 0x80000000,
            ApiKeyScope::OrgUpdate => 0x100000000,
            ApiKeyScope::OrgDelete => 0x200000000,
            ApiKeyScope::OrgMemberInvites => 0x400000000,
            ApiKeyScope::OrgMemberList => 0x800000000,
            ApiKeyScope::OrgMemberKick => 0x1000000000,
            ApiKeyScope::OrgMemberUpdate => 0x2000000000,
            ApiKeyScope::OrgWebhookList => 0x4000000000,
            ApiKeyScope::OrgWebhookCreate => 0x8000000000,
            ApiKeyScope::OrgWebhookUpdate => 0x10000000000,
            ApiKeyScope::OrgWebhookDelete => 0x20000000000,
            ApiKeyScope::OrgWebhookEventList => 0x40000000000,
            ApiKeyScope::OrgWebhookEventDelete => 0x80000000000,
            ApiKeyScope::AdminStats => 0x100000000000,
            ApiKeyScope::AdminUserCreate => 0x200000000000,
            ApiKeyScope::AdminUserDelete => 0x400000000000,
            ApiKeyScope::AdminUserUpdate => 0x800000000000,
            ApiKeyScope::AdminOrgDelete => 0x1000000000000,
            ApiKeyScope::AdminOrgUpdate => 0x2000000000000,
        }
    }

    /// Returns the humane name of this flag.
    pub fn name(self) -> (r: &'static str)
        ensures
            r@ == self.spec_name(),
    {
        match self {
            ApiKeyScope::UserAccess => "user:access",
            ApiKeyScope::UserUpdate => "user:update",
            ApiKeyScope::UserDelete => "user:delete",
            ApiKeyScope::UserConnections => "user:connections",
            ApiKeyScope::UserAvatarUpdate => "user:avatar:update",
            ApiKeyScope::UserSessionsList => "user:sessions:list",
            ApiKeyScope::RepoAccess => "repo:access",
            ApiKeyScope::RepoCreate => "repo:create",
            ApiKeyScope::RepoDelete => "repo:delete",
            ApiKeyScope::RepoUpdate => "repo:update",
            ApiKeyScope::RepoIconUpdate => "repo:icon:update",
            ApiKeyScope::RepoReleaseCreate => "repo:releases:create",
            ApiKeyScope::RepoReleaseUpdate => "repo:releases:update",
            ApiKeyScope::RepoReleaseDelete => "repo:releases:delete",
            ApiKeyScope::RepoMembersList => "repo:members:list",
            ApiKeyScope::RepoMemberUpdate => "repo:members:update",
            ApiKeyScope::RepoMemberKick => "repo:members:kick",
            ApiKeyScope::RepoMemberInviteAccess => "repo:members:invites:access",
            ApiKeyScope::RepoMemberInviteDelete => "repo:members:invites:delete",
            ApiKeyScope::RepoWebhookList => "repo:webhooks:list",
            ApiKeyScope::RepoWebhookCreate => "repo:webhooks:create",
            ApiKeyScope::RepoWebhookUpdate => "repo:webhooks:update",
            ApiKeyScope::RepoWebhookDelete => "repo:webhooks:delete",
            ApiKeyScope::RepoWebhookEventAccess => "repo:webhooks:events:access",
            ApiKeyScope::RepoWebhookEventDelete => "repo:webhooks:events:delete",
            ApiKeyScope::ApiKeyView => "apikeys:view",
            ApiKeyScope::ApiKeyList => "apikeys:list",
            ApiKeyScope::ApiKeyCreate => "apikeys:create",
            ApiKeyScope::ApiKeyDelete => "apikeys:delete",
            ApiKeyScope::ApiKeyUpdate => "apikeys:update",
            ApiKeyScope::OrgAccess => "org:access",
            ApiKeyScope::OrgCreate => "org:create",
            ApiKeyScope::OrgUpdate => "org:update",
            ApiKeyScope::OrgDelete => "org:delete",
            ApiKeyScope::OrgMemberInvites => "org:members:invites",
            ApiKeyScope::OrgMemberList => "org:members:list",
            ApiKeyScope::OrgMemberKick => "org:members:kick",
            ApiKeyScope::OrgMemberUpdate => "org:members:update",
            ApiKeyScope::OrgWebhookList => "org:webhooks:list",
            ApiKeyScope::OrgWebhookCreate => "org:webhooks:create",
            ApiKeyScope::OrgWebhookUpdate => "org:webhooks:update",
            ApiKeyScope::OrgWebhookDelete => "org:webhooks:delete",
            ApiKeyScope::OrgWebhookEventList => "org:webhooks:events:list",
            ApiKeyScope::OrgWebhookEventDelete => "org:webhooks:events:delete",
            ApiKeyScope::AdminStats => "admin:stats",
            ApiKeyScope::AdminUserCreate => "admin:users:create",
            ApiKeyScope::AdminUserDelete => "admin:users:delete",
            ApiKeyScope::AdminUserUpdate => "admin:users:update",
            ApiKeyScope::AdminOrgDelete => "admin:orgs:delete",
            ApiKeyScope::AdminOrgUpdate => "admin:orgs:update",
        }
    }

    /// Every flag, in declaration (bit) order.
    pub open spec fn spec_all() -> Seq<ApiKeyScope> {
        seq![ApiKeyScope::UserAccess, ApiKeyScope::UserUpdate, ApiKeyScope::UserDelete, ApiKeyScope::UserConnections, ApiKeyScope::UserAvatarUpdate, ApiKeyScope::UserSessionsList, ApiKeyScope::RepoAccess, ApiKeyScope::RepoCreate, ApiKeyScope::RepoDelete, ApiKeyScope::RepoUpdate, ApiKeyScope::RepoIconUpdate, ApiKeyScope::RepoReleaseCreate, ApiKeyScope::RepoReleaseUpdate, ApiKeyScope::RepoReleaseDelete, ApiKeyScope::RepoMembersList, ApiKeyScope::RepoMemberUpdate, ApiKeyScope::RepoMemberKick, ApiKeyScope::RepoMemberInviteAccess, ApiKeyScope::RepoMemberInviteDelete, ApiKeyScope::RepoWebhookList, ApiKeyScope::RepoWebhookCreate, ApiKeyScope::RepoWebhookUpdate, ApiKeyScope::RepoWebhookDelete, ApiKeyScope::RepoWebhookEventAccess, ApiKeyScope::RepoWebhookEventDelete, ApiKeyScope::ApiKeyView, ApiKeyScope::ApiKeyList, ApiKeyScope::ApiKeyCreate, ApiKeyScope::ApiKeyDelete, ApiKeyScope::ApiKeyUpdate, ApiKeyScope::OrgAccess, ApiKeyScope::OrgCreate, ApiKeyScope::OrgUpdate, ApiKeyScope::OrgDelete, ApiKeyScope::OrgMemberInvites, ApiKeyScope::OrgMemberList, ApiKeyScope::OrgMemberKick, ApiKeyScope::OrgMemberUpdate, ApiKeyScope::OrgWebhookList, ApiKeyScope::OrgWebhookCreate, ApiKeyScope::OrgWebhookUpdate, ApiKeyScope::OrgWebhookDelete, ApiKeyScope::OrgWebhookEventList, ApiKeyScope::OrgWebhookEventDelete, ApiKeyScope::AdminStats, ApiKeyScope::AdminUserCreate, ApiKeyScope::AdminUserDelete, ApiKeyScope::AdminUserUpdate, ApiKeyScope::AdminOrgDelete, ApiKeyScope::AdminOrgUpdate]
    }

    /// Returns every flag, in declaration (bit) order.
    pub fn all() -> (r: Vec<ApiKeyScope>)
        ensures
            r@ == Self::spec_all(),
    {
        let r = vec![ApiKeyScope::UserAccess, ApiKeyScope::UserUpdate, ApiKeyScope::UserDelete, ApiKeyScope::UserConnections, ApiKeyScope::UserAvatarUpdate, ApiKeyScope::UserSessionsList, ApiKeyScope::RepoAccess, ApiKeyScope::RepoCreate, ApiKeyScope::RepoDelete, ApiKeyScope::RepoUpdate, ApiKeyScope::RepoIconUpdate, ApiKeyScope::RepoReleaseCreate, ApiKeyScope::RepoReleaseUpdate, ApiKeyScope::RepoReleaseDelete, ApiKeyScope::RepoMembersList, ApiKeyScope::RepoMemberUpdate, ApiKeyScope::RepoMemberKick, ApiKeyScope::RepoMemberInviteAccess, ApiKeyScope::RepoMemberInviteDelete, ApiKeyScope::RepoWebhookList, ApiKeyScope::RepoWebhookCreate, ApiKeyScope::RepoWebhookUpdate, ApiKeyScope::RepoWebhookDelete, ApiKeyScope::RepoWebhookEventAccess, ApiKeyScope::RepoWebhookEventDelete, ApiKeyScope::ApiKeyView, ApiKeyScope::ApiKeyList, ApiKeyScope::ApiKeyCreate, ApiKeyScope::ApiKeyDelete, ApiKeyScope::ApiKeyUpdate, ApiKeyScope::OrgAccess, ApiKeyScope::OrgCreate, ApiKeyScope::OrgUpdate, ApiKeyScope::OrgDelete, ApiKeyScope::OrgMemberInvites, ApiKeyScope::OrgMemberList, ApiKeyScope::OrgMemberKick, ApiKeyScope::OrgMemberUpdate, ApiKeyScope::OrgWebhookList, ApiKeyScope::OrgWebhookCreate, ApiKeyScope::OrgWebhookUpdate, ApiKeyScope::OrgWebhookDelete, ApiKeyScope::OrgWebhookEventList, ApiKeyScope::OrgWebhookEventDelete, ApiKeyScope::AdminStats, ApiKeyScope::AdminUserCreate, ApiKeyScope::AdminUserDelete, ApiKeyScope::AdminUserUpdate, ApiKeyScope::AdminOrgDelete, ApiKeyScope::AdminOrgUpdate];
        assert(r@ =~= Self::spec_all());
        r
    }

    /// Every flag occurs in [`Self::spec_all`], at the position of its bit.
    pub proof fn lemma_in_all(self)
        ensures
            Self::spec_all().contains(self),
    {
        match self {
            ApiKeyScope::UserAccess => assert(Self::spec_all()[0] == self),
            ApiKeyScope::UserUpdate => assert(Self::spec_all()[1] == self),
            ApiKeyScope::UserDelete => assert(Self::spec_all()[2] == self),
            ApiKeyScope::UserConnections => assert(Self::spec_all()[3] == self),
            ApiKeyScope::UserAvatarUpdate => assert(Self::spec_all()[4] == self),
            ApiKeyScope::UserSessionsList => assert(Self::spec_all()[5] == self),
            ApiKeyScope::RepoAccess => assert(Self::spec_all()[6] == self),
            ApiKeyScope::RepoCreate => assert(Self::spec_all()[7] == self),
            ApiKeyScope::RepoDelete => assert(Self::spec_all()[8] == self),
            ApiKeyScope::RepoUpdate => assert(Self::spec_all()[9] == self),
            ApiKeyScope::RepoIconUpdate => assert(Self::spec_all()[10] == self),
            ApiKeyScope::RepoReleaseCreate => assert(Self::spec_all()[11] == self),
            ApiKeyScope::RepoReleaseUpdate => assert(Self::spec_all()[12] == self),
            ApiKeyScope::RepoReleaseDelete => assert(Self::spec_all()[13] == self),
            ApiKeyScope::RepoMembersList => assert(Self::spec_all()[14] == self),
            ApiKeyScope::RepoMemberUpdate => assert(Self::spec_all()[15] == self),
            ApiKeyScope::RepoMemberKick => assert(Self::spec_all()[16] == self),
            ApiKeyScope::RepoMemberInviteAccess => assert(Self::spec_all()[17] == self),
            ApiKeyScope::RepoMemberInviteDelete => assert(Self::spec_all()[18] == self),
            ApiKeyScope::RepoWebhookList => assert(Self::spec_all()[19] == self),
            ApiKeyScope::RepoWebhookCreate => assert(Self::spec_all()[20] == self),
            ApiKeyScope::RepoWebhookUpdate => assert(Self::spec_all()[21] == self),
            ApiKeyScope::RepoWebhookDelete => assert(Self::spec_all()[22] == self),
            ApiKeyScope::RepoWebhookEventAccess => assert(Self::spec_all()[23] == self),
            ApiKeyScope::RepoWebhookEventDelete => assert(Self::spec_all()[24] == self),
            ApiKeyScope::ApiKeyView => assert(Self::spec_all()[25] == self),
            ApiKeyScope::ApiKeyList => assert(Self::spec_all()[26] == self),
            ApiKeyScope::ApiKeyCreate => assert(Self::spec_all()[27] == self),
            ApiKeyScope::ApiKeyDelete => assert(Self::spec_all()[28] == self),
            ApiKeyScope::ApiKeyUpdate => assert(Self::spec_all()[29] == self),
            ApiKeyScope::OrgAccess => assert(Self::spec_all()[30] == self),
            ApiKeyScope::OrgCreate => assert(Self::spec_all()[31] == self),
            ApiKeyScope::OrgUpdate => assert(Self::spec_all()[32] == self),
            ApiKeyScope::OrgDelete => assert(Self::spec_all()[33] == self),
            ApiKeyScope::OrgMemberInvites => assert(Self::spec_all()[34] == self),
            ApiKeyScope::OrgMemberList => assert(Self::spec_all()[35] == self),
            ApiKeyScope::OrgMemberKick => assert(Self::spec_all()[36] == self),
            ApiKeyScope::OrgMemberUpdate => assert(Self::spec_all()[37] == self),
            ApiKeyScope::OrgWebhookList => assert(Self::spec_all()[38] == self),
            ApiKeyScope::OrgWebhookCreate => assert(Self::spec_all()[39] == self),
            ApiKeyScope::OrgWebhookUpdate => assert(Self::spec_all()[40] == self),
            ApiKeyScope::OrgWebhookDelete => assert(Self::spec_all()[41] == self),
            ApiKeyScope::OrgWebhookEventList => assert(Self::spec_all()[42] == self),
            ApiKeyScope::OrgWebhookEventDelete => assert(Self::spec_all()[43] == self),
            ApiKeyScope::AdminStats => assert(Self::spec_all()[44] == self),
            ApiKeyScope::AdminUserCreate => assert(Self::spec_all()[45] == self),
            ApiKeyScope::AdminUserDelete => assert(Self::spec_all()[46] == self),
            ApiKeyScope::AdminUserUpdate => assert(Self::spec_all()[47] == self),
            ApiKeyScope::AdminOrgDelete => assert(Self::spec_all()[48] == self),
            ApiKeyScope::AdminOrgUpdate => assert(Self::spec_all()[49] == self),
        }
    }

    /// The flag with the humane name `name`, if there is one.
    pub open spec fn spec_from_name(name: Seq<char>) -> Option<ApiKeyScope> {
        if name.len() == 11 {
            if name == "user:access"@ {
                Some(ApiKeyScope::UserAccess)
            } else if name == "user:update"@ {
                Some(ApiKeyScope::UserUpdate)
            } else if name == "user:delete"@ {
                Some(ApiKeyScope::UserDelete)
            } else if name == "repo:access"@ {
                Some(ApiKeyScope::RepoAccess)
            } else if name == "repo:create"@ {
                Some(ApiKeyScope::RepoCreate)
            } else if name == "repo:delete"@ {
                Some(ApiKeyScope::RepoDelete)
            } else if name == "repo:update"@ {
                Some(ApiKeyScope::RepoUpdate)
            } else if name == "admin:stats"@ {
                Some(ApiKeyScope::AdminStats)
            } else {
                None
            }
        } else if name.len() == 16 {
            if name == "user:connections"@ {
                Some(ApiKeyScope::UserConnections)
            } else if name == "repo:icon:update"@ {
                Some(ApiKeyScope::RepoIconUpdate)
            } else if name == "org:members:list"@ {
                Some(ApiKeyScope::OrgMemberList)
            } else if name == "org:members:kick"@ {
                Some(ApiKeyScope::OrgMemberKick)
            } else {
                None
            }
        } else if name.len() == 18 {
            if name == "user:avatar:update"@ {
                Some(ApiKeyScope::UserAvatarUpdate)
            } else if name == "user:sessions:list"@ {
                Some(ApiKeyScope::UserSessionsList)
            } else if name == "repo:webhooks:list"@ {
                Some(ApiKeyScope::RepoWebhookList)
            } else if name == "org:members:update"@ {
                Some(ApiKeyScope::OrgMemberUpdate)
            } else if name == "admin:users:create"@ {
                Some(ApiKeyScope::AdminUserCreate)
            } else if name == "admin:users:delete"@ {
                Some(ApiKeyScope::AdminUserDelete)
            } else if name == "admin:users:update"@ {
                Some(ApiKeyScope::AdminUserUpdate)
            } else {
                None
            }
        } else if name.len() == 20 {
            if name == "repo:releases:create"@ {
                Some(ApiKeyScope::RepoReleaseCreate)
            } else if name == "repo:releases:update"@ {
                Some(ApiKeyScope::RepoReleaseUpdate)
            } else if name == "repo:releases:delete"@ {
                Some(ApiKeyScope::RepoReleaseDelete)
            } else if name == "repo:webhooks:create"@ {
                Some(ApiKeyScope::RepoWebhookCreate)
            } else if name == "repo:webhooks:update"@ {
                Some(ApiKeyScope::RepoWebhookUpdate)
            } else if name == "repo:webhooks:delete"@ {
                Some(ApiKeyScope::RepoWebhookDelete)
            } else {
                None
            }
        } else if name.len() == 17 {
            if name == "repo:members:list"@ {
                Some(ApiKeyScope::RepoMembersList)
            } else if name == "repo:members:kick"@ {
                Some(ApiKeyScope::RepoMemberKick)
            } else if name == "org:webhooks:list"@ {
                Some(ApiKeyScope::OrgWebhookList)
            } else if name == "admin:orgs:delete"@ {
                Some(ApiKeyScope::AdminOrgDelete)
            } else if name == "admin:orgs:update"@ {
                Some(ApiKeyScope::AdminOrgUpdate)
            } else {
                None
            }
        } else if name.len() == 19 {
            if name == "repo:members:update"@ {
                Some(ApiKeyScope::RepoMemberUpdate)
            } else if name == "org:members:invites"@ {
                Some(ApiKeyScope::OrgMemberInvites)
            } else if name == "org:webhooks:create"@ {
                Some(ApiKeyScope::OrgWebhookCreate)
            } else if name == "org:webhooks:update"@ {
                Some(ApiKeyScope::OrgWebhookUpdate)
            } else if name == "org:webhooks:delete"@ {
                Some(ApiKeyScope::OrgWebhookDelete)
            } else {
                None
            }
        } else if name.len() == 27 {
            if name == "repo:members:invites:access"@ {
                Some(ApiKeyScope::RepoMemberInviteAccess)
            } else if name == "repo:members:invites:delete"@ {
                Some(ApiKeyScope::RepoMemberInviteDelete)
            } else if name == "repo:webhooks:events:access"@ {
                Some(ApiKeyScope::RepoWebhookEventAccess)
            } else if name == "repo:webhooks:events:delete"@ {
                Some(ApiKeyScope::RepoWebhookEventDelete)
            } else {
                None
            }
        } else if name.len() == 12 {
            if name == "apikeys:view"@ {
                Some(ApiKeyScope::ApiKeyView)
            } else if name == "apikeys:list"@ {
                Some(ApiKeyScope::ApiKeyList)
            } else {
                None
            }
        } else if name.len() == 14 {
            if name == "apikeys:create"@ {
                Some(ApiKeyScope::ApiKeyCreate)
            } else if name == "apikeys:delete"@ {
                Some(ApiKeyScope::ApiKeyDelete)
            } else if name == "apikeys:update"@ {
                Some(ApiKeyScope::ApiKeyUpdate)
            } else {
                None
            }
        } else if name.len() == 10 {
            if name == "org:access"@ {
                Some(ApiKeyScope::OrgAccess)
            } else if name == "org:create"@ {
                Some(ApiKeyScope::OrgCreate)
            } else if name == "org:update"@ {
                Some(ApiKeyScope::OrgUpdate)
            } else if name == "org:delete"@ {
                Some(ApiKeyScope::OrgDelete)
            } else {
                None
            }
        } else if name.len() == 24 {
            if name == "org:webhooks:events:list"@ {
                Some(ApiKeyScope::OrgWebhookEventList)
            } else {
                None
            }
        } else if name.len() == 26 {
            if name == "org:webhooks:events:delete"@ {
                Some(ApiKeyScope::OrgWebhookEventDelete)
            } else {
                None
            }
        } else {
            None
        }
    }

    /// Looking a flag's own name up gives that flag back.
    pub proof fn lemma_from_own_name(self)
        ensures
            Self::spec_from_name(self.spec_name()) == Some(self),
    {
        match self {
            ApiKeyScope::UserAccess => {
                reveal_strlit("user:access");
                assert("user:access"@.len() == 11);
            },
            ApiKeyScope::UserUpdate => {
                reveal_strlit("user:update");
                assert("user:update"@.len() == 11);
                reveal_strlit("user:access");
                assert("user:update"@[5] != "user:access"@[5]);
            },
            ApiKeyScope::UserDelete => {
                reveal_strlit("user:delete");
                assert("user:delete"@.len() == 11);
                reveal_strlit("user:access");
                assert("user:delete"@[5] != "user:access"@[5]);
                reveal_strlit("user:update");
                assert("user:delete"@[5] != "user:update"@[5]);
            },
            ApiKeyScope::UserConnections => {
                reveal_strlit("user:connections");
                assert("user:connections"@.len() == 16);
            },
            ApiKeyScope::UserAvatarUpdate => {
                reveal_strlit("user:avatar:update");
                assert("user:avatar:update"@.len() == 18);
            },
            ApiKeyScope::UserSessionsList => {
                reveal_strlit("user:sessions:list");
                assert("user:sessions:list"@.len() == 18);
                reveal_strlit("user:avatar:update");
                assert("user:sessions:list"@[5] != "user:avatar:update"@[5]);
            },
            ApiKeyScope::RepoAccess => {
                reveal_strlit("repo:access");
                assert("repo:access"@.len() == 11);
                reveal_strlit("user:access");
                assert("repo:access"@[0] != "user:access"@[0]);
                reveal_strlit("user:update");
                assert("repo:access"@[0] != "user:update"@[0]);
                reveal_strlit("user:delete");
                assert("repo:access"@[0] != "user:delete"@[0]);
            },
            ApiKeyScope::RepoCreate => {
                reveal_strlit("repo:create");
                assert("repo:create"@.len() == 11);
                reveal_strlit("user:access");
                assert("repo:create"@[0] != "user:access"@[0]);
                reveal_strlit("user:update");
                assert("repo:create"@[0] != "user:update"@[0]);
                reveal_strlit("user:delete");
                assert("repo:create"@[0] != "user:delete"@[0]);
                reveal_strlit("repo:access");
                assert("repo:create"@[5] != "repo:access"@[5]);
            },
            ApiKeyScope::RepoDelete => {
                reveal_strlit("repo:delete");
                assert("repo:delete"@.len() == 11);
                reveal_strlit("user:access");
                assert("repo:delete"@[0] != "user:access"@[0]);
                reveal_strlit("user:update");
                assert("repo:delete"@[0] != "user:update"@[0]);
                reveal_strlit("user:delete");
                assert("repo:delete"@[0] != "user:delete"@[0]);
                reveal_strlit("repo:access");
                assert("repo:delete"@[5] != "repo:access"@[5]);
                reveal_strlit("repo:create");
                assert("repo:delete"@[5] != "repo:create"@[5]);
            },
            ApiKeyScope::RepoUpdate => {
                reveal_strlit("repo:update");
                assert("repo:update"@.len() == 11);
                reveal_strlit("user:access");
                assert("repo:update"@[0] != "user:access"@[0]);
                reveal_strlit("user:update");
                assert("repo:update"@[0] != "user:update"@[0]);
                reveal_strlit("user:delete");
                assert("repo:update"@[0] != "user:delete"@[0]);
                reveal_strlit("repo:access");
                assert("repo:update"@[5] != "repo:access"@[5]);
                reveal_strlit("repo:create");
                assert("repo:update"@[5] != "repo:create"@[5]);
                reveal_strlit("repo:delete");
                assert("repo:update"@[5] != "repo:delete"@[5]);
            },
            ApiKeyScope::RepoIconUpdate => {
                reveal_strlit("repo:icon:update");
                assert("repo:icon:update"@.len() == 16);
                reveal_strlit("user:connections");
                assert("repo:icon:update"@[0] != "user:connections"@[0]);
            },
            ApiKeyScope::RepoReleaseCreate => {
                reveal_strlit("repo:releases:create");
                assert("repo:releases:create"@.len() == 20);
            },
            ApiKeyScope::RepoReleaseUpdate => {
                reveal_strlit("repo:releases:update");
                assert("repo:releases:update"@.len() == 20);
                reveal_strlit("repo:releases:create");
                assert("repo:releases:update"@[14] != "repo:releases:create"@[14]);
            },
            ApiKeyScope::RepoReleaseDelete => {
                reveal_strlit("repo:releases:delete");
                assert("repo:releases:delete"@.len() == 20);
                reveal_strlit("repo:releases:create");
                assert("repo:releases:delete"@[14] != "repo:releases:create"@[14]);
                reveal_strlit("repo:releases:update");
                assert("repo:releases:delete"@[14] != "repo:releases:update"@[14]);
            },
            ApiKeyScope::RepoMembersList => {
                reveal_strlit("repo:members:list");
                assert("repo:members:list"@.len() == 17);
            },
            ApiKeyScope::RepoMemberUpdate => {
                reveal_strlit("repo:members:update");
                assert("repo:members:update"@.len() == 19);
            },
            ApiKeyScope::RepoMemberKick => {
                reveal_strlit("repo:members:kick");
                assert("repo:members:kick"@.len() == 17);
                reveal_strlit("repo:members:list");
                assert("repo:members:kick"@[13] != "repo:members:list"@[13]);
            },
            ApiKeyScope::RepoMemberInviteAccess => {
                reveal_strlit("repo:members:invites:access");
                assert("repo:members:invites:access"@.len() == 27);
            },
            ApiKeyScope::RepoMemberInviteDelete => {
                reveal_strlit("repo:members:invites:delete");
                assert("repo:members:invites:delete"@.len() == 27);
                reveal_strlit("repo:members:invites:access");
                assert("repo:members:invites:delete"@[21] != "repo:members:invites:access"@[21]);
            },
            ApiKeyScope::RepoWebhookList => {
                reveal_strlit("repo:webhooks:list");
                assert("repo:webhooks:list"@.len() == 18);
                reveal_strlit("user:avatar:update");
                assert("repo:webhooks:list"@[0] != "user:avatar:update"@[0]);
                reveal_strlit("user:sessions:list");
                assert("repo:webhooks:list"@[0] != "user:sessions:list"@[0]);
            },
            ApiKeyScope::RepoWebhookCreate => {
                reveal_strlit("repo:webhooks:create");
                assert("repo:webhooks:create"@.len() == 20);
                reveal_strlit("repo:releases:create");
                assert("repo:webhooks:create"@[5] != "repo:releases:create"@[5]);
                reveal_strlit("repo:releases:update");
                assert("repo:webhooks:create"@[5] != "repo:releases:update"@[5]);
                reveal_strlit("repo:releases:delete");
                assert("repo:webhooks:create"@[5] != "repo:releases:delete"@[5]);
            },
            ApiKeyScope::RepoWebhookUpdate => {
                reveal_strlit("repo:webhooks:update");
                assert("repo:webhooks:update"@.len() == 20);
                reveal_strlit("repo:releases:create");
                assert("repo:webhooks:update"@[5] != "repo:releases:create"@[5]);
                reveal_strlit("repo:releases:update");
                assert("repo:webhooks:update"@[5] != "repo:releases:update"@[5]);
                reveal_strlit("repo:releases:delete");
                assert("repo:webhooks:update"@[5] != "repo:releases:delete"@[5]);
                reveal_strlit("repo:webhooks:create");
                assert("repo:webhooks:update"@[14] != "repo:webhooks:create"@[14]);
            },
            ApiKeyScope::RepoWebhookDelete => {
                reveal_strlit("repo:webhooks:delete");
                assert("repo:webhooks:delete"@.len() == 20);
                reveal_strlit("repo:releases:create");
                assert("repo:webhooks:delete"@[5] != "repo:releases:create"@[5]);
                reveal_strlit("repo:releases:update");
                assert("repo:webhooks:delete"@[5] != "repo:releases:update"@[5]);
                reveal_strlit("repo:releases:delete");
                assert("repo:webhooks:delete"@[5] != "repo:releases:delete"@[5]);
                reveal_strlit("repo:webhooks:create");
                assert("repo:webhooks:delete"@[14] != "repo:webhooks:create"@[14]);
                reveal_strlit("repo:webhooks:update");
                assert("repo:webhooks:delete"@[14] != "repo:webhooks:update"@[14]);
            },
            ApiKeyScope::RepoWebhookEventAccess => {
                reveal_strlit("repo:webhooks:events:access");
                assert("repo:webhooks:events:access"@.len() == 27);
                reveal_strlit("repo:members:invites:access");
                assert("repo:webhooks:events:access"@[5] != "repo:members:invites:access"@[5]);
                reveal_strlit("repo:members:invites:delete");
                assert("repo:webhooks:events:access"@[5] != "repo:members:invites:delete"@[5]);
            },
            ApiKeyScope::RepoWebhookEventDelete => {
                reveal_strlit("repo:webhooks:events:delete");
                assert("repo:webhooks:events:delete"@.len() == 27);
                reveal_strlit("repo:members:invites:access");
                assert("repo:webhooks:events:delete"@[5] != "repo:members:invites:access"@[5]);
                reveal_strlit("repo:members:invites:delete");
                assert("repo:webhooks:events:delete"@[5] != "repo:members:invites:delete"@[5]);
                reveal_strlit("repo:webhooks:events:access");
                assert("repo:webhooks:events:delete"@[21] != "repo:webhooks:events:access"@[21]);
            },
            ApiKeyScope::ApiKeyView => {
                reveal_strlit("apikeys:view");
                assert("apikeys:view"@.len() == 12);
            },
            ApiKeyScope::ApiKeyList => {
                reveal_strlit("apikeys:list");
                assert("apikeys:list"@.len() == 12);
                reveal_strlit("apikeys:view");
                assert("apikeys:list"@[8] != "apikeys:view"@[8]);
            },
            ApiKeyScope::ApiKeyCreate => {
                reveal_strlit("apikeys:create");
                assert("apikeys:create"@.len() == 14);
            },
            ApiKeyScope::ApiKeyDelete => {
                reveal_strlit("apikeys:delete");
                assert("apikeys:delete"@.len() == 14);
                reveal_strlit("apikeys:create");
                assert("apikeys:delete"@[8] != "apikeys:create"@[8]);
            },
            ApiKeyScope::ApiKeyUpdate => {
                reveal_strlit("apikeys:update");
                assert("apikeys:update"@.len() == 14);
                reveal_strlit("apikeys:create");
                assert("apikeys:update"@[8] != "apikeys:create"@[8]);
                reveal_strlit("apikeys:delete");
                assert("apikeys:update"@[8] != "apikeys:delete"@[8]);
            },
            ApiKeyScope::OrgAccess => {
                reveal_strlit("org:access");
                assert("org:access"@.len() == 10);
            },
            ApiKeyScope::OrgCreate => {
                reveal_strlit("org:create");
                assert("org:create"@.len() == 10);
                reveal_strlit("org:access");
                assert("org:create"@[4] != "org:access"@[4]);
            },
            ApiKeyScope::OrgUpdate => {
                reveal_strlit("org:update");
                assert("org:update"@.len() == 10);
                reveal_strlit("org:access");
                assert("org:update"@[4] != "org:access"@[4]);
                reveal_strlit("org:create");
                assert("org:update"@[4] != "org:create"@[4]);
            },
            ApiKeyScope::OrgDelete => {
                reveal_strlit("org:delete");
                assert("org:delete"@.len() == 10);
                reveal_strlit("org:access");
                assert("org:delete"@[4] != "org:access"@[4]);
                reveal_strlit("org:create");
                assert("org:delete"@[4] != "org:create"@[4]);
                reveal_strlit("org:update");
                assert("org:delete"@[4] != "org:update"@[4]);
            },
            ApiKeyScope::OrgMemberInvites => {
                reveal_strlit("org:members:invites");
                assert("org:members:invites"@.len() == 19);
                reveal_strlit("repo:members:update");
                assert("org:members:invites"@[0] != "repo:members:update"@[0]);
            },
            ApiKeyScope::OrgMemberList => {
                reveal_strlit("org:members:list");
                assert("org:members:list"@.len() == 16);
                reveal_strlit("user:connections");
                assert("org:members:list"@[0] != "user:connections"@[0]);
                reveal_strlit("repo:icon:update");
                assert("org:members:list"@[0] != "repo:icon:update"@[0]);
            },
            ApiKeyScope::OrgMemberKick => {
                reveal_strlit("org:members:kick");
                assert("org:members:kick"@.len() == 16);
                reveal_strlit("user:connections");
                assert("org:members:kick"@[0] != "user:connections"@[0]);
                reveal_strlit("repo:icon:update");
                assert("org:members:kick"@[0] != "repo:icon:update"@[0]);
                reveal_strlit("org:members:list");
                assert("org:members:kick"@[12] != "org:members:list"@[12]);
            },
            ApiKeyScope::OrgMemberUpdate => {
                reveal_strlit("org:members:update");
                assert("org:members:update"@.len() == 18);
                reveal_strlit("user:avatar:update");
                assert("org:members:update"@[0] != "user:avatar:update"@[0]);
                reveal_strlit("user:sessions:list");
                assert("org:members:update"@[0] != "user:sessions:list"@[0]);
                reveal_strlit("repo:webhooks:list");
                assert("org:members:update"@[0] != "repo:webhooks:list"@[0]);
            },
            ApiKeyScope::OrgWebhookList => {
                reveal_strlit("org:webhooks:list");
                assert("org:webhooks:list"@.len() == 17);
                reveal_strlit("repo:members:list");
                assert("org:webhooks:list"@[0] != "repo:members:list"@[0]);
                reveal_strlit("repo:members:kick");
                assert("org:webhooks:list"@[0] != "repo:members:kick"@[0]);
            },
            ApiKeyScope::OrgWebhookCreate => {
                reveal_strlit("org:webhooks:create");
                assert("org:webhooks:create"@.len() == 19);
                reveal_strlit("repo:members:update");
                assert("org:webhooks:create"@[0] != "repo:members:update"@[0]);
                reveal_strlit("org:members:invites");
                assert("org:webhooks:create"@[4] != "org:members:invites"@[4]);
            },
            ApiKeyScope::OrgWebhookUpdate => {
                reveal_strlit("org:webhooks:update");
                assert("org:webhooks:update"@.len() == 19);
                reveal_strlit("repo:members:update");
                assert("org:webhooks:update"@[0] != "repo:members:update"@[0]);
                reveal_strlit("org:members:invites");
                assert("org:webhooks:update"@[4] != "org:members:invites"@[4]);
                reveal_strlit("org:webhooks:create");
                assert("org:webhooks:update"@[13] != "org:webhooks:create"@[13]);
            },
            ApiKeyScope::OrgWebhookDelete => {
                reveal_strlit("org:webhooks:delete");
                assert("org:webhooks:delete"@.len() == 19);
                reveal_strlit("repo:members:update");
                assert("org:webhooks:delete"@[0] != "repo:members:update"@[0]);
                reveal_strlit("org:members:invites");
                assert("org:webhooks:delete"@[4] != "org:members:invites"@[4]);
                reveal_strlit("org:webhooks:create");
                assert("org:webhooks:delete"@[13] != "org:webhooks:create"@[13]);
                reveal_strlit("org:webhooks:update");
                assert("org:webhooks:delete"@[13] != "org:webhooks:update"@[13]);
            },
            ApiKeyScope::OrgWebhookEventList => {
                reveal_strlit("org:webhooks:events:list");
                assert("org:webhooks:events:list"@.len() == 24);
            },
            ApiKeyScope::OrgWebhookEventDelete => {
                reveal_strlit("org:webhooks:events:delete");
                assert("org:webhooks:events:delete"@.len() == 26);
            },
            ApiKeyScope::AdminStats => {
                reveal_strlit("admin:stats");
                assert("admin:stats"@.len() == 11);
                reveal_strlit("user:access");
                assert("admin:stats"@[0] != "user:access"@[0]);
                reveal_strlit("user:update");
                assert("admin:stats"@[0] != "user:update"@[0]);
                reveal_strlit("user:delete");
                assert("admin:stats"@[0] != "user:delete"@[0]);
                reveal_strlit("repo:access");
                assert("admin:stats"@[0] != "repo:access"@[0]);
                reveal_strlit("repo:create");
                assert("admin:stats"@[0] != "repo:create"@[0]);
                reveal_strlit("repo:delete");
                assert("admin:stats"@[0] != "repo:delete"@[0]);
                reveal_strlit("repo:update");
                assert("admin:stats"@[0] != "repo:update"@[0]);
            },
            ApiKeyScope::AdminUserCreate => {
                reveal_strlit("admin:users:create");
                assert("admin:users:create"@.len() == 18);
                reveal_strlit("user:avatar:update");
                assert("admin:users:create"@[0] != "user:avatar:update"@[0]);
                reveal_strlit("user:sessions:list");
                assert("admin:users:create"@[0] != "user:sessions:list"@[0]);
                reveal_strlit("repo:webhooks:list");
                assert("admin:users:create"@[0] != "repo:webhooks:list"@[0]);
                reveal_strlit("org:members:update");
                assert("admin:users:create"@[0] != "org:members:update"@[0]);
            },
            ApiKeyScope::AdminUserDelete => {
                reveal_strlit("admin:users:delete");
                assert("admin:users:delete"@.len() == 18);
                reveal_strlit("user:avatar:update");
                assert("admin:users:delete"@[0] != "user:avatar:update"@[0]);
                reveal_strlit("user:sessions:list");
                assert("admin:users:delete"@[0] != "user:sessions:list"@[0]);
                reveal_strlit("repo:webhooks:list");
                assert("admin:users:delete"@[0] != "repo:webhooks:list"@[0]);
                reveal_strlit("org:members:update");
                assert("admin:users:delete"@[0] != "org:members:update"@[0]);
                reveal_strlit("admin:users:create");
                assert("admin:users:delete"@[12] != "admin:users:create"@[12]);
            },
            ApiKeyScope::AdminUserUpdate => {
                reveal_strlit("admin:users:update");
                assert("admin:users:update"@.len() == 18);
                reveal_strlit("user:avatar:update");
                assert("admin:users:update"@[0] != "user:avatar:update"@[0]);
                reveal_strlit("user:sessions:list");
                assert("admin:users:update"@[0] != "user:sessions:list"@[0]);
                reveal_strlit("repo:webhooks:list");
                assert("admin:users:update"@[0] != "repo:webhooks:list"@[0]);
                reveal_strlit("org:members:update");
                assert("admin:users:update"@[0] != "org:members:update"@[0]);
                reveal_strlit("admin:users:create");
                assert("admin:users:update"@[12] != "admin:users:create"@[12]);
                reveal_strlit("admin:users:delete");
                assert("admin:users:update"@[12] != "admin:users:delete"@[12]);
            },
            ApiKeyScope::AdminOrgDelete => {
                reveal_strlit("admin:orgs:delete");
                assert("admin:orgs:delete"@.len() == 17);
                reveal_strlit("repo:members:list");
                assert("admin:orgs:delete"@[0] != "repo:members:list"@[0]);
                reveal_strlit("repo:members:kick");
                assert("admin:orgs:delete"@[0] != "repo:members:kick"@[0]);
                reveal_strlit("org:webhooks:list");
                assert("admin:orgs:delete"@[0] != "org:webhooks:list"@[0]);
            },
            ApiKeyScope::AdminOrgUpdate => {
                reveal_strlit("admin:orgs:update");
                assert("admin:orgs:update"@.len() == 17);
                reveal_strlit("repo:members:list");
                assert("admin:orgs:update"@[0] != "repo:members:list"@[0]);
                reveal_strlit("repo:members:kick");
                assert("admin:orgs:update"@[0] != "repo:members:kick"@[0]);
                reveal_strlit("org:webhooks:list");
                assert("admin:orgs:update"@[0] != "org:webhooks:list"@[0]);
                reveal_strlit("admin:orgs:delete");
                assert("admin:orgs:update"@[11] != "admin:orgs:delete"@[11]);
            },
        }
    }

    /// A name that the lookup accepts is the name of the flag it gives.
    pub proof fn lemma_from_name_sound(name: Seq<char>)
        ensures
            match Self::spec_from_name(name) {
                Some(f) => f.spec_name() == name,
                None => forall|f: ApiKeyScope| #[trigger] f.spec_name() != name,
            },
    {
        assert forall|f: ApiKeyScope| Self::spec_from_name(name) is None implies #[trigger] f.spec_name() != name by {
            f.lemma_from_own_name();
        }
    }

    /// No two flags share a name, so a name read back gives the flag that
    /// wrote it.
    pub proof fn law_name_identifies(a: ApiKeyScope, b: ApiKeyScope)
        requires
            a.spec_name() == b.spec_name(),
        ensures
            a == b,
    {
        a.lemma_from_own_name();
        b.lemma_from_own_name();
    }

    /// No two flags share a bit.
    pub proof fn law_bit_identifies(a: ApiKeyScope, b: ApiKeyScope)
        requires
            a.spec_bit() == b.spec_bit(),
        ensures
            a == b,
    {
    }

    /// Looks a flag up by its humane name.
    pub fn from_name(name: &str) -> (r: Option<ApiKeyScope>)
        ensures
            r == Self::spec_from_name(name@),
            match r {
                Some(s) => s.spec_name() == name@,
                None => forall|s: ApiKeyScope| s.spec_name() != name@,
            },
    {
        let all = Self::all();
        let mut i: usize = 0;
        while i < all.len()
            invariant
                all@ == Self::spec_all(),
                i <= all@.len(),
                forall|j: int| 0 <= j < i ==> (#[trigger] all@[j]).spec_name() != name@,
            decreases all@.len() - i,
        {
            if str_eq(all[i].name(), name) {
                proof { all@[i as int].lemma_from_own_name(); }
                return Some(all[i]);
            }
            i = i + 1;
        }
        proof {
            assert forall|s: ApiKeyScope| s.spec_name() != name@ by {
                s.lemma_in_all();
                let j = choose|j: int| 0 <= j < all@.len() && all@[j] == s;
            }
            Self::lemma_from_name_sound(name@);
        }
        None
    }

    /// Looks a flag up by its bit.
    pub fn from_bit(bit: u64) -> (r: Option<ApiKeyScope>)
        ensures
            match r {
                Some(s) => s.spec_bit() == bit,
                None => forall|s: ApiKeyScope| s.spec_bit() != bit,
            },
    {
        let all = Self::all();
        let mut i: usize = 0;
        while i < all.len()
            invariant
                all@ == Self::spec_all(),
                i <= all@.len(),
                forall|j: int| 0 <= j < i ==> (#[trigger] all@[j]).spec_bit() != bit,
            decreases all@.len() - i,
        {
            if all[i].as_bit() == bit {
                return Some(all[i]);
            }
            i = i + 1;
        }
        proof {
            assert forall|s: ApiKeyScope| s.spec_bit() != bit by {
                s.lemma_in_all();
                let j = choose|j: int| 0 <= j < all@.len() && all@[j] == s;
            }
        }
        None
    }

}

impl AsBit for ApiKeyScope {
    open spec fn spec_bit(&self) -> u64 {
        (*self).spec_bit()
    }

    fn bit(&self) -> (r: u64) {
        (*self).as_bit()
    }
}

impl From<ApiKeyScope> for u64 {
    /// The bit of the flag.
    fn from(value: ApiKeyScope) -> (r: u64) {
        value.as_bit()
    }
}

impl FromSpecImpl<ApiKeyScope> for u64 {
    open spec fn obeys_from_spec() -> bool {
        true
    }

    open spec fn from_spec(v: ApiKeyScope) -> u64 {
        v.spec_bit()
    }
}

impl PartialEq<u64> for ApiKeyScope {
    /// Whether `other` is the bit of this flag.
    fn eq(&self, other: &u64) -> (r: bool) {
        self.as_bit() == *other
    }
}

impl PartialEqSpecImpl<u64> for ApiKeyScope {
    open spec fn obeys_eq_spec() -> bool {
        true
    }

    open spec fn eq_spec(&self, other: &u64) -> bool {
        self.spec_bit() == *other
    }
}

impl Bitflags for ApiKeyScope {
    open spec fn spec_values() -> Seq<u64> {
        seq![0x1, 0x2, 0x4, 0x8, 0x10, 0x20, 0x40, 0x80, 0x100, 0x200, 0x400, 0x800, 0x1000, 0x2000, 0x4000, 0x8000, 0x10000, 0x20000, 0x40000, 0x80000, 0x100000, 0x200000, 0x400000, 0x800000, 0x1000000, 0x2000000, 0x4000000, 0x8000000, 0x10000000, 0x20000000, 0x40000000, 0x80000000, 0x100000000, 0x200000000, 0x400000000, 0x800000000, 0x1000000000, 0x2000000000, 0x4000000000, 0x8000000000, 0x10000000000, 0x20000000000, 0x40000000000, 0x80000000000, 0x100000000000, 0x200000000000, 0x400000000000, 0x800000000000, 0x1000000000000, 0x2000000000000]
    }

    open spec fn spec_flags() -> Seq<(Seq<char>, u64)> {
        seq![("admin:orgs:delete"@, 0x1000000000000), ("admin:orgs:update"@, 0x2000000000000), ("admin:stats"@, 0x100000000000), ("admin:users:create"@, 0x200000000000), ("admin:users:delete"@, 0x400000000000), ("admin:users:update"@, 0x800000000000), ("apikeys:create"@, 0x8000000), ("apikeys:delete"@, 0x10000000), ("apikeys:list"@, 0x4000000), ("apikeys:update"@, 0x20000000), ("apikeys:view"@, 0x2000000), ("org:access"@, 0x40000000), ("org:create"@, 0x80000000), ("org:delete"@, 0x200000000), ("org:members:invites"@, 0x400000000), ("org:members:kick"@, 0x1000000000), ("org:members:list"@, 0x800000000), ("org:members:update"@, 0x2000000000), ("org:update"@, 0x100000000), ("org:webhooks:create"@, 0x8000000000), ("org:webhooks:delete"@, 0x20000000000), ("org:webhooks:events:delete"@, 0x80000000000), ("org:webhooks:events:list"@, 0x40000000000), ("org:webhooks:list"@, 0x4000000000), ("org:webhooks:update"@, 0x10000000000), ("repo:access"@, 0x40), ("repo:create"@, 0x80), ("repo:delete"@, 0x100), ("repo:icon:update"@, 0x400), ("repo:members:invites:access"@, 0x20000), ("repo:members:invites:delete"@, 0x40000), ("repo:members:kick"@, 0x10000), ("repo:members:list"@, 0x4000), ("repo:members:update"@, 0x8000), ("repo:releases:create"@, 0x800), ("repo:releases:delete"@, 0x2000), ("repo:releases:update"@, 0x1000), ("repo:update"@, 0x200), ("repo:webhooks:create"@, 0x100000), ("repo:webhooks:delete"@, 0x400000), ("repo:webhooks:events:access"@, 0x800000), ("repo:webhooks:events:delete"@, 0x1000000), ("repo:webhooks:list"@, 0x80000), ("repo:webhooks:update"@, 0x200000), ("user:access"@, 0x1), ("user:avatar:update"@, 0x10), ("user:connections"@, 0x8), ("user:delete"@, 0x4), ("user:sessions:list"@, 0x20), ("user:update"@, 0x2)]
    }

    proof fn lemma_flags_are_values() {
        let values = Self::spec_values();
        let flags = Self::spec_flags();
        let fb = flag_bits(flags);
        assert(single_bit(0x1u64) && single_bit(0x2u64) && single_bit(0x4u64) && single_bit(0x8u64) && single_bit(0x10u64) && single_bit(0x20u64) && single_bit(0x40u64) && single_bit(0x80u64) && single_bit(0x100u64) && single_bit(0x200u64) && single_bit(0x400u64) && single_bit(0x800u64) && single_bit(0x1000u64) && single_bit(0x2000u64) && single_bit(0x4000u64) && single_bit(0x8000u64) && single_bit(0x10000u64) && single_bit(0x20000u64) && single_bit(0x40000u64) && single_bit(0x80000u64) && single_bit(0x100000u64) && single_bit(0x200000u64) && single_bit(0x400000u64) && single_bit(0x800000u64) && single_bit(0x1000000u64) && single_bit(0x2000000u64) && single_bit(0x4000000u64) && single_bit(0x8000000u64) && single_bit(0x10000000u64) && single_bit(0x20000000u64) && single_bit(0x40000000u64) && single_bit(0x80000000u64) && single_bit(0x100000000u64) && single_bit(0x200000000u64) && single_bit(0x400000000u64) && single_bit(0x800000000u64) && single_bit(0x1000000000u64) && single_bit(0x2000000000u64) && single_bit(0x4000000000u64) && single_bit(0x8000000000u64) && single_bit(0x10000000000u64) && single_bit(0x20000000000u64) && single_bit(0x40000000000u64) && single_bit(0x80000000000u64) && single_bit(0x100000000000u64) && single_bit(0x200000000000u64) && single_bit(0x400000000000u64) && single_bit(0x800000000000u64) && single_bit(0x1000000000000u64) && single_bit(0x2000000000000u64)) by (bit_vector);
        assert forall|j: int| 0 <= j < values.len() implies single_bit(#[trigger] values[j]) by {
            if j == 0 {
                assert(values[0] == 0x1u64);
            } else if j == 1 {
                assert(values[1] == 0x2u64);
            } else if j == 2 {
                assert(values[2] == 0x4u64);
            } else if j == 3 {
                assert(values[3] == 0x8u64);
            } else if j == 4 {
                assert(values[4] == 0x10u64);
            } else if j == 5 {
                assert(values[5] == 0x20u64);
            } else if j == 6 {
                assert(values[6] == 0x40u64);
            } else if j == 7 {
                assert(values[7] == 0x80u64);
            } else if j == 8 {
                assert(values[8] == 0x100u64);
            } else if j == 9 {
                assert(values[9] == 0x200u64);
            } else if j == 10 {
                assert(values[10] == 0x400u64);
            } else if j == 11 {
                assert(values[11] == 0x800u64);
            } else if j == 12 {
                assert(values[12] == 0x1000u64);
            } else if j == 13 {
                assert(values[13] == 0x2000u64);
            } else if j == 14 {
                assert(values[14] == 0x4000u64);
            } else if j == 15 {
                assert(values[15] == 0x8000u64);
            } else if j == 16 {
                assert(values[16] == 0x10000u64);
            } else if j == 17 {
                assert(values[17] == 0x20000u64);
            } else if j == 18 {
                assert(values[18] == 0x40000u64);
            } else if j == 19 {
                assert(values[19] == 0x80000u64);
            } else if j == 20 {
                assert(values[20] == 0x100000u64);
            } else if j == 21 {
                assert(values[21] == 0x200000u64);
            } else if j == 22 {
                assert(values[22] == 0x400000u64);
            } else if j == 23 {
                assert(values[23] == 0x800000u64);
            } else if j == 24 {
                assert(values[24] == 0x1000000u64);
            } else if j == 25 {
                assert(values[25] == 0x2000000u64);
            } else if j == 26 {
                assert(values[26] == 0x4000000u64);
            } else if j == 27 {
                assert(values[27] == 0x8000000u64);
            } else if j == 28 {
                assert(values[28] == 0x10000000u64);
            } else if j == 29 {
                assert(values[29] == 0x20000000u64);
            } else if j == 30 {
                assert(values[30] == 0x40000000u64);
            } else if j == 31 {
                assert(values[31] == 0x80000000u64);
            } else if j == 32 {
                assert(values[32] == 0x100000000u64);
            } else if j == 33 {
                assert(values[33] == 0x200000000u64);
            } else if j == 34 {
                assert(values[34] == 0x400000000u64);
            } else if j == 35 {
                assert(values[35] == 0x800000000u64);
            } else if j == 36 {
                assert(values[36] == 0x1000000000u64);
            } else if j == 37 {
                assert(values[37] == 0x2000000000u64);
            } else if j == 38 {
                assert(values[38] == 0x4000000000u64);
            } else if j == 39 {
                assert(values[39] == 0x8000000000u64);
            } else if j == 40 {
                assert(values[40] == 0x10000000000u64);
            } else if j == 41 {
                assert(values[41] == 0x20000000000u64);
            } else if j == 42 {
                assert(values[42] == 0x40000000000u64);
            } else if j == 43 {
                assert(values[43] == 0x80000000000u64);
            } else if j == 44 {
                assert(values[44] == 0x100000000000u64);
            } else if j == 45 {
                assert(values[45] == 0x200000000000u64);
            } else if j == 46 {
                assert(values[46] == 0x400000000000u64);
            } else if j == 47 {
                assert(values[47] == 0x800000000000u64);
            } else if j == 48 {
                assert(values[48] == 0x1000000000000u64);
            } else {
                assert(values[49] == 0x2000000000000u64);
            }
        }
        assert forall|i: int| 0 <= i < flags.len() implies values.contains(#[trigger] flags[i].1) by {
            if i == 0 {
                assert(values[48] == flags[0].1);
            } else if i == 1 {
                assert(values[49] == flags[1].1);
            } else if i == 2 {
                assert(values[44] == flags[2].1);
            } else if i == 3 {
                assert(values[45] == flags[3].1);
            } else if i == 4 {
                assert(values[46] == flags[4].1);
            } else if i == 5 {
                assert(values[47] == flags[5].1);
            } else if i == 6 {
                assert(values[27] == flags[6].1);
            } else if i == 7 {
                assert(values[28] == flags[7].1);
            } else if i == 8 {
                assert(values[26] == flags[8].1);
            } else if i == 9 {
                assert(values[29] == flags[9].1);
            } else if i == 10 {
                assert(values[25] == flags[10].1);
            } else if i == 11 {
                assert(values[30] == flags[11].1);
            } else if i == 12 {
                assert(values[31] == flags[12].1);
            } else if i == 13 {
                assert(values[33] == flags[13].1);
            } else if i == 14 {
                assert(values[34] == flags[14].1);
            } else if i == 15 {
                assert(values[36] == flags[15].1);
            } else if i == 16 {
                assert(values[35] == flags[16].1);
            } else if i == 17 {
                assert(values[37] == flags[17].1);
            } else if i == 18 {
                assert(values[32] == flags[18].1);
            } else if i == 19 {
                assert(values[39] == flags[19].1);
            } else if i == 20 {
                assert(values[41] == flags[20].1);
            } else if i == 21 {
                assert(values[43] == flags[21].1);
            } else if i == 22 {
                assert(values[42] == flags[22].1);
            } else if i == 23 {
                assert(values[38] == flags[23].1);
            } else if i == 24 {
                assert(values[40] == flags[24].1);
            } else if i == 25 {
                assert(values[6] == flags[25].1);
            } else if i == 26 {
                assert(values[7] == flags[26].1);
            } else if i == 27 {
                assert(values[8] == flags[27].1);
            } else if i == 28 {
                assert(values[10] == flags[28].1);
            } else if i == 29 {
                assert(values[17] == flags[29].1);
            } else if i == 30 {
                assert(values[18] == flags[30].1);
            } else if i == 31 {
                assert(values[16] == flags[31].1);
            } else if i == 32 {
                assert(values[14] == flags[32].1);
            } else if i == 33 {
                assert(values[15] == flags[33].1);
            } else if i == 34 {
                assert(values[11] == flags[34].1);
            } else if i == 35 {
                assert(values[13] == flags[35].1);
            } else if i == 36 {
                assert(values[12] == flags[36].1);
            } else if i == 37 {
                assert(values[9] == flags[37].1);
            } else if i == 38 {
                assert(values[20] == flags[38].1);
            } else if i == 39 {
                assert(values[22] == flags[39].1);
            } else if i == 40 {
                assert(values[23] == flags[40].1);
            } else if i == 41 {
                assert(values[24] == flags[41].1);
            } else if i == 42 {
                assert(values[19] == flags[42].1);
            } else if i == 43 {
                assert(values[21] == flags[43].1);
            } else if i == 44 {
                assert(values[0] == flags[44].1);
            } else if i == 45 {
                assert(values[4] == flags[45].1);
            } else if i == 46 {
                assert(values[3] == flags[46].1);
            } else if i == 47 {
                assert(values[2] == flags[47].1);
            } else if i == 48 {
                assert(values[5] == flags[48].1);
            } else {
                assert(values[1] == flags[49].1);
            }
        }
        assert forall|j: int| 0 <= j < values.len() implies fb.contains(#[trigger] values[j]) by {
            if j == 0 {
                assert(fb[44] == values[0]);
            } else if j == 1 {
                assert(fb[49] == values[1]);
            } else if j == 2 {
                assert(fb[47] == values[2]);
            } else if j == 3 {
                assert(fb[46] == values[3]);
            } else if j == 4 {
                assert(fb[45] == values[4]);
            } else if j == 5 {
                assert(fb[48] == values[5]);
            } else if j == 6 {
                assert(fb[25] == values[6]);
            } else if j == 7 {
                assert(fb[26] == values[7]);
            } else if j == 8 {
                assert(fb[27] == values[8]);
            } else if j == 9 {
                assert(fb[37] == values[9]);
            } else if j == 10 {
                assert(fb[28] == values[10]);
            } else if j == 11 {
                assert(fb[34] == values[11]);
            } else if j == 12 {
                assert(fb[36] == values[12]);
            } else if j == 13 {
                assert(fb[35] == values[13]);
            } else if j == 14 {
                assert(fb[32] == values[14]);
            } else if j == 15 {
                assert(fb[33] == values[15]);
            } else if j == 16 {
                assert(fb[31] == values[16]);
            } else if j == 17 {
                assert(fb[29] == values[17]);
            } else if j == 18 {
                assert(fb[30] == values[18]);
            } else if j == 19 {
                assert(fb[42] == values[19]);
            } else if j == 20 {
                assert(fb[38] == values[20]);
            } else if j == 21 {
                assert(fb[43] == values[21]);
            } else if j == 22 {
                assert(fb[39] == values[22]);
            } else if j == 23 {
                assert(fb[40] == values[23]);
            } else if j == 24 {
                assert(fb[41] == values[24]);
            } else if j == 25 {
                assert(fb[10] == values[25]);
            } else if j == 26 {
                assert(fb[8] == values[26]);
            } else if j == 27 {
                assert(fb[6] == values[27]);
            } else if j == 28 {
                assert(fb[7] == values[28]);
            } else if j == 29 {
                assert(fb[9] == values[29]);
            } else if j == 30 {
                assert(fb[11] == values[30]);
            } else if j == 31 {
                assert(fb[12] == values[31]);
            } else if j == 32 {
                assert(fb[18] == values[32]);
            } else if j == 33 {
                assert(fb[13] == values[33]);
            } else if j == 34 {
                assert(fb[14] == values[34]);
            } else if j == 35 {
                assert(fb[16] == values[35]);
            } else if j == 36 {
                assert(fb[15] == values[36]);
            } else if j == 37 {
                assert(fb[17] == values[37]);
            } else if j == 38 {
                assert(fb[23] == values[38]);
            } else if j == 39 {
                assert(fb[19] == values[39]);
            } else if j == 40 {
                assert(fb[24] == values[40]);
            } else if j == 41 {
                assert(fb[20] == values[41]);
            } else if j == 42 {
                assert(fb[22] == values[42]);
            } else if j == 43 {
                assert(fb[21] == values[43]);
            } else if j == 44 {
                assert(fb[2] == values[44]);
            } else if j == 45 {
                assert(fb[3] == values[45]);
            } else if j == 46 {
                assert(fb[4] == values[46]);
            } else if j == 47 {
                assert(fb[5] == values[47]);
            } else if j == 48 {
                assert(fb[0] == values[48]);
            } else {
                assert(fb[1] == values[49]);
            }
        }
        Self::lemma_flag_names_ascend();
    }

    fn flags() -> (r: Vec<(&'static str, u64)>) {
        let r = vec![("admin:orgs:delete", 0x1000000000000), ("admin:orgs:update", 0x2000000000000), ("admin:stats", 0x100000000000), ("admin:users:create", 0x200000000000), ("admin:users:delete", 0x400000000000), ("admin:users:update", 0x800000000000), ("apikeys:create", 0x8000000), ("apikeys:delete", 0x10000000), ("apikeys:list", 0x4000000), ("apikeys:update", 0x20000000), ("apikeys:view", 0x2000000), ("org:access", 0x40000000), ("org:create", 0x80000000), ("org:delete", 0x200000000), ("org:members:invites", 0x400000000), ("org:members:kick", 0x1000000000), ("org:members:list", 0x800000000), ("org:members:update", 0x2000000000), ("org:update", 0x100000000), ("org:webhooks:create", 0x8000000000), ("org:webhooks:delete", 0x20000000000), ("org:webhooks:events:delete", 0x80000000000), ("org:webhooks:events:list", 0x40000000000), ("org:webhooks:list", 0x4000000000), ("org:webhooks:update", 0x10000000000), ("repo:access", 0x40), ("repo:create", 0x80), ("repo:delete", 0x100), ("repo:icon:update", 0x400), ("repo:members:invites:access", 0x20000), ("repo:members:invites:delete", 0x40000), ("repo:members:kick", 0x10000), ("repo:members:list", 0x4000), ("repo:members:update", 0x8000), ("repo:releases:create", 0x800), ("repo:releases:delete", 0x2000), ("repo:releases:update", 0x1000), ("repo:update", 0x200), ("repo:webhooks:create", 0x100000), ("repo:webhooks:delete", 0x400000), ("repo:webhooks:events:access", 0x800000), ("repo:webhooks:events:delete", 0x1000000), ("repo:webhooks:list", 0x80000), ("repo:webhooks:update", 0x200000), ("user:access", 0x1), ("user:avatar:update", 0x10), ("user:connections", 0x8), ("user:delete", 0x4), ("user:sessions:list", 0x20), ("user:update", 0x2)];
        assert(flag_views(r@) =~= Self::spec_flags());
        proof {
            Self::lemma_flags_are_values();
        }
        r
    }

    fn values() -> (r: Vec<u64>) {
        let r = vec![0x1, 0x2, 0x4, 0x8, 0x10, 0x20, 0x40, 0x80, 0x100, 0x200, 0x400, 0x800, 0x1000, 0x2000, 0x4000, 0x8000, 0x10000, 0x20000, 0x40000, 0x80000, 0x100000, 0x200000, 0x400000, 0x800000, 0x1000000, 0x2000000, 0x4000000, 0x8000000, 0x10000000, 0x20000000, 0x40000000, 0x80000000, 0x100000000, 0x200000000, 0x400000000, 0x800000000, 0x1000000000, 0x2000000000, 0x4000000000, 0x8000000000, 0x10000000000, 0x20000000000, 0x40000000000, 0x80000000000, 0x100000000000, 0x200000000000, 0x400000000000, 0x800000000000, 0x1000000000000, 0x2000000000000];
        assert(r@ =~= Self::spec_values());
        r
    }
}

/// A set of API key scopes.
pub type ApiKeyScopes = Bitfield<ApiKeyScope>;

/// A permission of a repository or organization member; one bit each.
#[derive(Debug, Clone, Copy, Hash, PartialEq, Eq, Structural, PartialOrd, Ord)]
pub enum MemberPermission {
    /// Bit `1 << 0`, named `member:invite`.
    MemberInvite,
    /// Bit `1 << 1`, named `member:update`.
    MemberUpdate,
    /// Bit `1 << 2`, named `member:kick`.
    MemberKick,
    /// Bit `1 << 3`, named `metadata:update`.
    MetadataUpdate,
    /// Bit `1 << 4`, named `repo:create`.
    RepoCreate,
    /// Bit `1 << 5`, named `repo:delete`.
    RepoDelete,
    /// Bit `1 << 6`, named `webhooks:create`.
    WebhookCreate,
    /// Bit `1 << 7`, named `webhooks:update`.
    WebhookUpdate,
    /// Bit `1 << 8`, named `webhooks:delete`.
    WebhookDelete,
    /// Bit `1 << 9`, named `metadata:delete`.
    MetadataDelete,
}

impl MemberPermission {
    /// The bit of this flag.
    pub open spec fn spec_bit(self) -> u64 {
        match self {
            MemberPermission::MemberInvite => 0x1,
            MemberPermission::MemberUpdate => 0x2,
            MemberPermission::MemberKick => 0x4,
            MemberPermission::MetadataUpdate => 0x8,
            MemberPermission::RepoCreate => 0x10,
            MemberPermission::RepoDelete => 0x20,
            MemberPermission::WebhookCreate => 0x40,
            MemberPermission::WebhookUpdate => 0x80,
            MemberPermission::WebhookDelete => 0x100,
            MemberPermission::MetadataDelete => 0x200,
        }
    }

    /// The humane name of this flag.
    pub open spec fn spec_name(self) -> Seq<char> {
        match self {
            MemberPermission::MemberInvite => "member:invite"@,
            MemberPermission::MemberUpdate => "member:update"@,
            MemberPermission::MemberKick => "member:kick"@,
            MemberPermission::MetadataUpdate => "metadata:update"@,
            MemberPermission::RepoCreate => "repo:create"@,
            MemberPermission::RepoDelete => "repo:delete"@,
            MemberPermission::WebhookCreate => "webhooks:create"@,
            MemberPermission::WebhookUpdate => "webhooks:update"@,
            MemberPermission::WebhookDelete => "webhooks:delete"@,
            MemberPermission::MetadataDelete => "metadata:delete"@,
        }
    }

    /// The names of the flag table strictly ascend.
    proof fn lemma_flag_names_ascend()
        ensures
            names_ascending(Self::spec_flags()),
    {
        let flags = Self::spec_flags();
        assert(seq_lt(flags[0].0, flags[1].0)) by {
            reveal_strlit("member:invite");
            reveal_strlit("member:kick");
            assert(flags[0].0 == "member:invite"@ && flags[1].0 == "member:kick"@);
            assert("member:invite"@.take(7) =~= "member:kick"@.take(7));
            lemma_seq_lt_at("member:invite"@, "member:kick"@, 7);
        }
        assert(seq_lt(flags[1].0, flags[2].0)) by {
            reveal_strlit("member:kick");
            reveal_strlit("member:update");
            assert(flags[1].0 == "member:kick"@ && flags[2].0 == "member:update"@);
            assert("member:kick"@.take(7) =~= "member:update"@.take(7));
            lemma_seq_lt_at("member:kick"@, "member:update"@, 7);
        }
        assert(seq_lt(flags[2].0, flags[3].0)) by {
            reveal_strlit("member:update");
            reveal_strlit("metadata:delete");
            assert(flags[2].0 == "member:update"@ && flags[3].0 == "metadata:delete"@);
            assert("member:update"@.take(2) =~= "metadata:delete"@.take(2));
            lemma_seq_lt_at("member:update"@, "metadata:delete"@, 2);
        }
        assert(seq_lt(flags[3].0, flags[4].0)) by {
            reveal_strlit("metadata:delete");
            reveal_strlit("metadata:update");
            assert(flags[3].0 == "metadata:delete"@ && flags[4].0 == "metadata:update"@);
            assert("metadata:delete"@.take(9) =~= "metadata:update"@.take(9));
            lemma_seq_lt_at("metadata:delete"@, "metadata:update"@, 9);
        }
        assert(seq_lt(flags[4].0, flags[5].0)) by {
            reveal_strlit("metadata:update");
            reveal_strlit("repo:create");
            assert(flags[4].0 == "metadata:update"@ && flags[5].0 == "repo:create"@);
            assert("metadata:update"@.take(0) =~= "repo:create"@.take(0));
            lemma_seq_lt_at("metadata:update"@, "repo:create"@, 0);
        }
        assert(seq_lt(flags[5].0, flags[6].0)) by {
            reveal_strlit("repo:create");
            reveal_strlit("repo:delete");
            assert(flags[5].0 == "repo:create"@ && flags[6].0 == "repo:delete"@);
            assert("repo:create"@.take(5) =~= "repo:delete"@.take(5));
            lemma_seq_lt_at("repo:create"@, "repo:delete"@, 5);
        }
        assert(seq_lt(flags[6].0, flags[7].0)) by {
            reveal_strlit("repo:delete");
            reveal_strlit("webhooks:create");
            assert(flags[6].0 == "repo:delete"@ && flags[7].0 == "webhooks:create"@);
            assert("repo:delete"@.take(0) =~= "webhooks:create"@.take(0));
            lemma_seq_lt_at("repo:delete"@, "webhooks:create"@, 0);
        }
        assert(seq_lt(flags[7].0, flags[8].0)) by {
            reveal_strlit("webhooks:create");
            reveal_strlit("webhooks:delete");
            assert(flags[7].0 == "webhooks:create"@ && flags[8].0 == "webhooks:delete"@);
            assert("webhooks:create"@.take(9) =~= "webhooks:delete"@.take(9));
            lemma_seq_lt_at("webhooks:create"@, "webhooks:delete"@, 9);
        }
        assert(seq_lt(flags[8].0, flags[9].0)) by {
            reveal_strlit("webhooks:delete");
            reveal_strlit("webhooks:update");
            assert(flags[8].0 == "webhooks:delete"@ && flags[9].0 == "webhooks:update"@);
            assert("webhooks:delete"@.take(9) =~= "webhooks:update"@.take(9));
            lemma_seq_lt_at("webhooks:delete"@, "webhooks:update"@, 9);
        }
        assert forall|i: int| 0 <= i < flags.len() - 1 implies seq_lt(#[trigger] flags[i].0, flags[i + 1].0) by {
            if i == 0 {
                assert(seq_lt(flags[0].0, flags[1].0));
            } else if i == 1 {
                assert(seq_lt(flags[1].0, flags[2].0));
            } else if i == 2 {
                assert(seq_lt(flags[2].0, flags[3].0));
            } else if i == 3 {
                assert(seq_lt(flags[3].0, flags[4].0));
            } else if i == 4 {
                assert(seq_lt(flags[4].0, flags[5].0));
            } else if i == 5 {
                assert(seq_lt(flags[5].0, flags[6].0));
            } else if i == 6 {
                assert(seq_lt(flags[6].0, flags[7].0));
            } else if i == 7 {
                assert(seq_lt(flags[7].0, flags[8].0));
            } else {
                assert(seq_lt(flags[8].0, flags[9].0));
            }
        }
        assert(names_ascend_stepwise(flags));
        lemma_names_ascending(flags);
    }

    /// Each flag's name and bit form an entry of the flag table, the
    /// table that `flags` lists and `Bitfield::flags` reads names from.
    pub proof fn law_flag_in_table(self)
        ensures
            Self::spec_flags().contains((self.spec_name(), self.spec_bit())),
    {
        let flags = Self::spec_flags();
        match self {
            MemberPermission::MemberInvite => assert(flags[0] == (self.spec_name(), self.spec_bit())),
            MemberPermission::MemberUpdate => assert(flags[2] == (self.spec_name(), self.spec_bit())),
            MemberPermission::MemberKick => assert(flags[1] == (self.spec_name(), self.spec_bit())),
            MemberPermission::MetadataUpdate => assert(flags[4] == (self.spec_name(), self.spec_bit())),
            MemberPermission::RepoCreate => assert(flags[5] == (self.spec_name(), self.spec_bit())),
            MemberPermission::RepoDelete => assert(flags[6] == (self.spec_name(), self.spec_bit())),
            MemberPermission::WebhookCreate => assert(flags[7] == (self.spec_name(), self.spec_bit())),
            MemberPermission::WebhookUpdate => assert(flags[9] == (self.spec_name(), self.spec_bit())),
            MemberPermission::WebhookDelete => assert(flags[8] == (self.spec_name(), self.spec_bit())),
            MemberPermission::MetadataDelete => assert(flags[3] == (self.spec_name(), self.spec_bit())),
        }
    }

    /// The flags in declaration order are the bits `1 << 0`, `1 << 1`, ...:
    /// the `i`-th declared flag is bit `i`.
    pub proof fn law_bit_is_declaration_index(i: int)
        requires
            0 <= i < Self::spec_all().len(),
        ensures
            Self::spec_all()[i].spec_bit() == 1u64 << (i as u64),
    {
        assert(1u64 << 0u64 == 0x1u64 && 1u64 << 1u64 == 0x2u64 && 1u64 << 2u64 == 0x4u64 && 1u64 << 3u64 == 0x8u64 && 1u64 << 4u64 == 0x10u64 && 1u64 << 5u64 == 0x20u64 && 1u64 << 6u64 == 0x40u64 && 1u64 << 7u64 == 0x80u64 && 1u64 << 8u64 == 0x100u64 && 1u64 << 9u64 == 0x200u64) by (bit_vector);
        let all = Self::spec_all();
        if i == 0 {
            assert(all[0] == MemberPermission::MemberInvite);
        } else if i == 1 {
            assert(all[1] == MemberPermission::MemberUpdate);
        } else if i == 2 {
            assert(all[2] == MemberPermission::MemberKick);
        } else if i == 3 {
            assert(all[3] == MemberPermission::MetadataUpdate);
        } else if i == 4 {
            assert(all[4] == MemberPermission::RepoCreate);
        } else if i == 5 {
            assert(all[5] == MemberPermission::RepoDelete);
        } else if i == 6 {
            assert(all[6] == MemberPermission::WebhookCreate);
        } else if i == 7 {
            assert(all[7] == MemberPermission::WebhookUpdate);
        } else if i == 8 {
            assert(all[8] == MemberPermission::WebhookDelete);
        } else {
            assert(all[9] == MemberPermission::MetadataDelete);
        }
    }

    /// The bit of this flag in decimal, as `Display` writes it.
    pub fn to_string(self) -> (r: String)
        ensures
            r@ == decimal(self.spec_bit() as nat),
    {
        u64_to_decimal(self.as_bit())
    }

    /// Returns the bit of this flag.
    pub fn as_bit(self) -> (r: u64)
        ensures
            r == self.spec_bit(),
    {
        match self {
            MemberPermission::MemberInvite => 0x1,
            MemberPermission::MemberUpdate => 0x2,
            MemberPermission::MemberKick => 0x4,
            MemberPermission::MetadataUpdate => 0x8,
            MemberPermission::RepoCreate => 0x10,
            MemberPermission::RepoDelete => 0x20,
            MemberPermission::WebhookCreate => 0x40,
            MemberPermission::WebhookUpdate => 0x80,
            MemberPermission::WebhookDelete => 0x100,
            MemberPermission::MetadataDelete => 0x200,
        }
    }

    /// Returns the humane name of this flag.
    pub fn name(self) -> (r: &'static str)
        ensures
            r@ == self.spec_name(),
    {
        match self {
            MemberPermission::MemberInvite => "member:invite",
            MemberPermission::MemberUpdate => "member:update",
            MemberPermission::MemberKick => "member:kick",
            MemberPermission::MetadataUpdate => "metadata:update",
            MemberPermission::RepoCreate => "repo:create",
            MemberPermission::RepoDelete => "repo:delete",
            MemberPermission::WebhookCreate => "webhooks:create",
            MemberPermission::WebhookUpdate => "webhooks:update",
            MemberPermission::WebhookDelete => "webhooks:delete",
            MemberPermission::MetadataDelete => "metadata:delete",
        }
    }

    /// Every flag, in declaration (bit) order.
    pub open spec fn spec_all() -> Seq<MemberPermission> {
        seq![MemberPermission::MemberInvite, MemberPermission::MemberUpdate, MemberPermission::MemberKick, MemberPermission::MetadataUpdate, MemberPermission::RepoCreate, MemberPermission::RepoDelete, MemberPermission::WebhookCreate, MemberPermission::WebhookUpdate, MemberPermission::WebhookDelete, MemberPermission::MetadataDelete]
    }

    /// Returns every flag, in declaration (bit) order.
    pub fn all() -> (r: Vec<MemberPermission>)
        ensures
            r@ == Self::spec_all(),
    {
        let r = vec![MemberPermission::MemberInvite, MemberPermission::MemberUpdate, MemberPermission::MemberKick, MemberPermission::MetadataUpdate, MemberPermission::RepoCreate, MemberPermission::RepoDelete, MemberPermission::WebhookCreate, MemberPermission::WebhookUpdate, MemberPermission::WebhookDelete, MemberPermission::MetadataDelete];
        assert(r@ =~= Self::spec_all());
        r
    }

    /// Every flag occurs in [`Self::spec_all`], at the position of its bit.
    pub proof fn lemma_in_all(self)
        ensures
            Self::spec_all().contains(self),
    {
        match self {
            MemberPermission::MemberInvite => assert(Self::spec_all()[0] == self),
            MemberPermission::MemberUpdate => assert(Self::spec_all()[1] == self),
            MemberPermission::MemberKick => assert(Self::spec_all()[2] == self),
            MemberPermission::MetadataUpdate => assert(Self::spec_all()[3] == self),
            MemberPermission::RepoCreate => assert(Self::spec_all()[4] == self),
            MemberPermission::RepoDelete => assert(Self::spec_all()[5] == self),
            MemberPermission::WebhookCreate => assert(Self::spec_all()[6] == self),
            MemberPermission::WebhookUpdate => assert(Self::spec_all()[7] == self),
            MemberPermission::WebhookDelete => assert(Self::spec_all()[8] == self),
            MemberPermission::MetadataDelete => assert(Self::spec_all()[9] == self),
        }
    }

    /// The flag with the humane name `name`, if there is one.
    pub open spec fn spec_from_name(name: Seq<char>) -> Option<MemberPermission> {
        if name.len() == 13 {
            if name == "member:invite"@ {
                Some(MemberPermission::MemberInvite)
            } else if name == "member:update"@ {
                Some(MemberPermission::MemberUpdate)
            } else {
                None
            }
        } else if name.len() == 11 {
            if name == "member:kick"@ {
                Some(MemberPermission::MemberKick)
            } else if name == "repo:create"@ {
                Some(MemberPermission::RepoCreate)
            } else if name == "repo:delete"@ {
                Some(MemberPermission::RepoDelete)
            } else {
                None
            }
        } else if name.len() == 15 {
            if name == "metadata:update"@ {
                Some(MemberPermission::MetadataUpdate)
            } else if name == "webhooks:create"@ {
                Some(MemberPermission::WebhookCreate)
            } else if name == "webhooks:update"@ {
                Some(MemberPermission::WebhookUpdate)
            } else if name == "webhooks:delete"@ {
                Some(MemberPermission::WebhookDelete)
            } else if name == "metadata:delete"@ {
                Some(MemberPermission::MetadataDelete)
            } else {
                None
            }
        } else {
            None
        }
    }

    /// Looking a flag's own name up gives that flag back.
    pub proof fn lemma_from_own_name(self)
        ensures
            Self::spec_from_name(self.spec_name()) == Some(self),
    {
        match self {
            MemberPermission::MemberInvite => {
                reveal_strlit("member:invite");
                assert("member:invite"@.len() == 13);
            },
            MemberPermission::MemberUpdate => {
                reveal_strlit("member:update");
                assert("member:update"@.len() == 13);
                reveal_strlit("member:invite");
                assert("member:update"@[7] != "member:invite"@[7]);
            },
            MemberPermission::MemberKick => {
                reveal_strlit("member:kick");
                assert("member:kick"@.len() == 11);
            },
            MemberPermission::MetadataUpdate => {
                reveal_strlit("metadata:update");
                assert("metadata:update"@.len() == 15);
            },
            MemberPermission::RepoCreate => {
                reveal_strlit("repo:create");
                assert("repo:create"@.len() == 11);
                reveal_strlit("member:kick");
                assert("repo:create"@[0] != "member:kick"@[0]);
            },
            MemberPermission::RepoDelete => {
                reveal_strlit("repo:delete");
                assert("repo:delete"@.len() == 11);
                reveal_strlit("member:kick");
                assert("repo:delete"@[0] != "member:kick"@[0]);
                reveal_strlit("repo:create");
                assert("repo:delete"@[5] != "repo:create"@[5]);
            },
            MemberPermission::WebhookCreate => {
                reveal_strlit("webhooks:create");
                assert("webhooks:create"@.len() == 15);
                reveal_strlit("metadata:update");
                assert("webhooks:create"@[0] != "metadata:update"@[0]);
            },
            MemberPermission::WebhookUpdate => {
                reveal_strlit("webhooks:update");
                assert("webhooks:update"@.len() == 15);
                reveal_strlit("metadata:update");
                assert("webhooks:update"@[0] != "metadata:update"@[0]);
                reveal_strlit("webhooks:create");
                assert("webhooks:update"@[9] != "webhooks:create"@[9]);
            },
            MemberPermission::WebhookDelete => {
                reveal_strlit("webhooks:delete");
                assert("webhooks:delete"@.len() == 15);
                reveal_strlit("metadata:update");
                assert("webhooks:delete"@[0] != "metadata:update"@[0]);
                reveal_strlit("webhooks:create");
                assert("webhooks:delete"@[9] != "webhooks:create"@[9]);
                reveal_strlit("webhooks:update");
                assert("webhooks:delete"@[9] != "webhooks:update"@[9]);
            },
            MemberPermission::MetadataDelete => {
                reveal_strlit("metadata:delete");
                assert("metadata:delete"@.len() == 15);
                reveal_strlit("metadata:update");
                assert("metadata:delete"@[9] != "metadata:update"@[9]);
                reveal_strlit("webhooks:create");
                assert("metadata:delete"@[0] != "webhooks:create"@[0]);
                reveal_strlit("webhooks:update");
                assert("metadata:delete"@[0] != "webhooks:update"@[0]);
                reveal_strlit("webhooks:delete");
                assert("metadata:delete"@[0] != "webhooks:delete"@[0]);
            },
        }
    }

    /// A name that the lookup accepts is the name of the flag it gives.
    pub proof fn lemma_from_name_sound(name: Seq<char>)
        ensures
            match Self::spec_from_name(name) {
                Some(f) => f.spec_name() == name,
                None => forall|f: MemberPermission| #[trigger] f.spec_name() != name,
            },
    {
        assert forall|f: MemberPermission| Self::spec_from_name(name) is None implies #[trigger] f.spec_name() != name by {
            f.lemma_from_own_name();
        }
    }

    /// No two flags share a name, so a name read back gives the flag that
    /// wrote it.
    pub proof fn law_name_identifies(a: MemberPermission, b: MemberPermission)
        requires
            a.spec_name() == b.spec_name(),
        ensures
            a == b,
    {
        a.lemma_from_own_name();
        b.lemma_from_own_name();
    }

    /// No two flags share a bit.
    pub proof fn law_bit_identifies(a: MemberPermission, b: MemberPermission)
        requires
            a.spec_bit() == b.spec_bit(),
        ensures
            a == b,
    {
    }

    /// Looks a flag up by its humane name.
    pub fn from_name(name: &str) -> (r: Option<MemberPermission>)
        ensures
            r == Self::spec_from_name(name@),
            match r {
                Some(s) => s.spec_name() == name@,
                None => forall|s: MemberPermission| s.spec_name() != name@,
            },
    {
        let all = Self::all();
        let mut i: usize = 0;
        while i < all.len()
            invariant
                all@ == Self::spec_all(),
                i <= all@.len(),
                forall|j: int| 0 <= j < i ==> (#[trigger] all@[j]).spec_name() != name@,
            decreases all@.len() - i,
        {
            if str_eq(all[i].name(), name) {
                proof { all@[i as int].lemma_from_own_name(); }
                return Some(all[i]);
            }
            i = i + 1;
        }
        proof {
            assert forall|s: MemberPermission| s.spec_name() != name@ by {
                s.lemma_in_all();
                let j = choose|j: int| 0 <= j < all@.len() && all@[j] == s;
            }
            Self::lemma_from_name_sound(name@);
        }
        None
    }

    /// Looks a flag up by its bit.
    pub fn from_bit(bit: u64) -> (r: Option<MemberPermission>)
        ensures
            match r {
                Some(s) => s.spec_bit() == bit,
                None => forall|s: MemberPermission| s.spec_bit() != bit,
            },
    {
        let all = Self::all();
        let mut i: usize = 0;
        while i < all.len()
            invariant
                all@ == Self::spec_all(),
                i <= all@.len(),
                forall|j: int| 0 <= j < i ==> (#[trigger] all@[j]).spec_bit() != bit,
            decreases all@.len() - i,
        {
            if all[i].as_bit() == bit {
                return Some(all[i]);
            }
            i = i + 1;
        }
        proof {
            assert forall|s: MemberPermission| s.spec_bit() != bit by {
                s.lemma_in_all();
                let j = choose|j: int| 0 <= j < all@.len() && all@[j] == s;
            }
        }
        None
    }

}

impl AsBit for MemberPermission {
    open spec fn spec_bit(&self) -> u64 {
        (*self).spec_bit()
    }

    fn bit(&self) -> (r: u64) {
        (*self).as_bit()
    }
}

impl From<MemberPermission> for u64 {
    /// The bit of the flag.
    fn from(value: MemberPermission) -> (r: u64) {
        value.as_bit()
    }
}

impl FromSpecImpl<MemberPermission> for u64 {
    open spec fn obeys_from_spec() -> bool {
        true
    }

    open spec fn from_spec(v: MemberPermission) -> u64 {
        v.spec_bit()
    }
}

impl PartialEq<u64> for MemberPermission {
    /// Whether `other` is the bit of this flag.
    fn eq(&self, other: &u64) -> (r: bool) {
        self.as_bit() == *other
    }
}

impl PartialEqSpecImpl<u64> for MemberPermission {
    open spec fn obeys_eq_spec() -> bool {
        true
    }

    open spec fn eq_spec(&self, other: &u64) -> bool {
        self.spec_bit() == *other
    }
}

impl Bitflags for MemberPermission {
    open spec fn spec_values() -> Seq<u64> {
        seq![0x1, 0x2, 0x4, 0x8, 0x10, 0x20, 0x40, 0x80, 0x100, 0x200]
    }

    open spec fn spec_flags() -> Seq<(Seq<char>, u64)> {
        seq![("member:invite"@, 0x1), ("member:kick"@, 0x4), ("member:update"@, 0x2), ("metadata:delete"@, 0x200), ("metadata:update"@, 0x8), ("repo:create"@, 0x10), ("repo:delete"@, 0x20), ("webhooks:create"@, 0x40), ("webhooks:delete"@, 0x100), ("webhooks:update"@, 0x80)]
    }

    proof fn lemma_flags_are_values() {
        let values = Self::spec_values();
        let flags = Self::spec_flags();
        let fb = flag_bits(flags);
        assert(single_bit(0x1u64) && single_bit(0x2u64) && single_bit(0x4u64) && single_bit(0x8u64) && single_bit(0x10u64) && single_bit(0x20u64) && single_bit(0x40u64) && single_bit(0x80u64) && single_bit(0x100u64) && single_bit(0x200u64)) by (bit_vector);
        assert forall|j: int| 0 <= j < values.len() implies single_bit(#[trigger] values[j]) by {
            if j == 0 {
                assert(values[0] == 0x1u64);
            } else if j == 1 {
                assert(values[1] == 0x2u64);
            } else if j == 2 {
                assert(values[2] == 0x4u64);
            } else if j == 3 {
                assert(values[3] == 0x8u64);
            } else if j == 4 {
                assert(values[4] == 0x10u64);
            } else if j == 5 {
                assert(values[5] == 0x20u64);
            } else if j == 6 {
                assert(values[6] == 0x40u64);
            } else if j == 7 {
                assert(values[7] == 0x80u64);
            } else if j == 8 {
                assert(values[8] == 0x100u64);
            } else {
                assert(values[9] == 0x200u64);
            }
        }
        assert forall|i: int| 0 <= i < flags.len() implies values.contains(#[trigger] flags[i].1) by {
            if i == 0 {
                assert(values[0] == flags[0].1);
            } else if i == 1 {
                assert(values[2] == flags[1].1);
            } else if i == 2 {
                assert(values[1] == flags[2].1);
            } else if i == 3 {
                assert(values[9] == flags[3].1);
            } else if i == 4 {
                assert(values[3] == flags[4].1);
            } else if i == 5 {
                assert(values[4] == flags[5].1);
            } else if i == 6 {
                assert(values[5] == flags[6].1);
            } else if i == 7 {
                assert(values[6] == flags[7].1);
            } else if i == 8 {
                assert(values[8] == flags[8].1);
            } else {
                assert(values[7] == flags[9].1);
            }
        }
        assert forall|j: int| 0 <= j < values.len() implies fb.contains(#[trigger] values[j]) by {
            if j == 0 {
                assert(fb[0] == values[0]);
            } else if j == 1 {
                assert(fb[2] == values[1]);
            } else if j == 2 {
                assert(fb[1] == values[2]);
            } else if j == 3 {
                assert(fb[4] == values[3]);
            } else if j == 4 {
                assert(fb[5] == values[4]);
            } else if j == 5 {
                assert(fb[6] == values[5]);
            } else if j == 6 {
                assert(fb[7] == values[6]);
            } else if j == 7 {
                assert(fb[9] == values[7]);
            } else if j == 8 {
                assert(fb[8] == values[8]);
            } else {
                assert(fb[3] == values[9]);
            }
        }
        Self::lemma_flag_names_ascend();
    }

    fn flags() -> (r: Vec<(&'static str, u64)>) {
        let r = vec![("member:invite", 0x1), ("member:kick", 0x4), ("member:update", 0x2), ("metadata:delete", 0x200), ("metadata:update", 0x8), ("repo:create", 0x10), ("repo:delete", 0x20), ("webhooks:create", 0x40), ("webhooks:delete", 0x100), ("webhooks:update", 0x80)];
        assert(flag_views(r@) =~= Self::spec_flags());
        proof {
            Self::lemma_flags_are_values();
        }
        r
    }

    fn values() -> (r: Vec<u64>) {
        let r = vec![0x1, 0x2, 0x4, 0x8, 0x10, 0x20, 0x40, 0x80, 0x100, 0x200];
        assert(r@ =~= Self::spec_values());
        r
    }
}

/// A set of member permissions.
pub type MemberPermissions = Bitfield<MemberPermission>;

} // verus!
