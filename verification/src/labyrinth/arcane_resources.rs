use vstd::prelude::*;

use crate::access::{
    AccessRule,
    OwnerRule,
    ResourceDefinition,
    ResourceKind,
    RoleRule,
    require_caller,
    require_resource,
    requires_caller,
    requires_resource,
};

verus! {

/// Defines the core, admin and member badge resources.
pub struct ArcaneResources {}

impl ArcaneResources {
    /// Who may mint a member badge: everyone.
    pub fn mint_member_rule() -> (r: AccessRule)
        ensures
            r is AllowAll,
    {
        AccessRule::AllowAll
    }

    /// Who may mint an admin badge: the holders of `core_badge`.
    pub fn mint_admin_rule(core_badge: String) -> (r: AccessRule)
        ensures
            requires_resource(r, core_badge),
    {
        require_resource(core_badge)
    }

    /// The core badge: random-id non-fungibles with no owner and the default
    /// rules; one is minted when it is created.
    pub fn core_badge() -> (d: ResourceDefinition)
        ensures
            d.kind == ResourceKind::RuidNonFungible,
            d.owner is NoOwner,
            d.name@ == "Arcane Core Badge"@,
            d.description@ == "this NFT grant access to All of Arcane Labyrinth's features"@,
            d.icon_url is None,
            d.mint is None,
            d.burn is None,
            d.withdraw is None,
            d.deposit is None,
            d.recall is None,
            d.update_data is None,
    {
        ResourceDefinition {
            kind: ResourceKind::RuidNonFungible,
            owner: OwnerRule::NoOwner,
            name: "Arcane Core Badge".to_owned(),
            description: "this NFT grant access to All of Arcane Labyrinth's features".to_owned(),
            icon_url: None,
            mint: None,
            burn: None,
            withdraw: None,
            deposit: None,
            recall: None,
            update_data: None,
        }
    }

    /// The admin badges: random-id non-fungibles with no owner, minted only
    /// by the component at `component_address`, deposited and burnt by
    /// anyone, recalled by the `core_badge`, and never withdrawn. Every rule
    /// can be changed by the core badge only.
    pub fn admin_badges(component_address: String, core_badge: String) -> (d: ResourceDefinition)
        ensures
            d.kind == ResourceKind::RuidNonFungible,
            d.owner is NoOwner,
            d.name@ == "Arcane Admin Badge"@,
            d.description@ == "this NFT grant access to admin page of Arcane Labyrinth"@,
            d.icon_url is None,
            d.mint matches Some(m) && requires_caller(m.rule, component_address) && requires_resource(
                m.updater,
                core_badge,
            ),
            d.deposit matches Some(x) && x.rule is AllowAll && requires_resource(x.updater, core_badge),
            d.recall matches Some(x) && requires_resource(x.rule, core_badge) && requires_resource(
                x.updater,
                core_badge,
            ),
            d.withdraw matches Some(x) && x.rule is DenyAll && requires_resource(x.updater, core_badge),
            d.burn matches Some(x) && x.rule is AllowAll && requires_resource(x.updater, core_badge),
            d.update_data is None,
            d.soulbound(),
    {
        ResourceDefinition {
            kind: ResourceKind::RuidNonFungible,
            owner: OwnerRule::NoOwner,
            name: "Arcane Admin Badge".to_owned(),
            description: "this NFT grant access to admin page of Arcane Labyrinth".to_owned(),
            icon_url: None,
            mint: Some(
                RoleRule { rule: require_caller(component_address), updater: require_resource(core_badge.clone()) },
            ),
            deposit: Some(RoleRule { rule: AccessRule::AllowAll, updater: require_resource(core_badge.clone()) }),
            recall: Some(
                RoleRule {
                    rule: require_resource(core_badge.clone()),
                    updater: require_resource(core_badge.clone()),
                },
            ),
            withdraw: Some(RoleRule { rule: AccessRule::DenyAll, updater: require_resource(core_badge.clone()) }),
            burn: Some(RoleRule { rule: AccessRule::AllowAll, updater: require_resource(core_badge) }),
            update_data: None,
        }
    }

    /// The member badges: random-id non-fungibles with no owner, minted,
    /// deposited and burnt by anyone, never withdrawn, and recalled only
    /// under the default rule. Every rule can be changed by the `core_badge`
    /// only.
    pub fn member_badges(core_badge: String) -> (d: ResourceDefinition)
        ensures
            d.kind == ResourceKind::RuidNonFungible,
            d.owner is NoOwner,
            d.name@ == "Arcane Member Badge"@,
            d.description@ == "this NFT grant access to member page of Arcane Labyrinth"@,
            d.icon_url is None,
            d.mint matches Some(m) && m.rule is AllowAll && requires_resource(m.updater, core_badge),
            d.withdraw matches Some(x) && x.rule is DenyAll && requires_resource(x.updater, core_badge),
            d.deposit matches Some(x) && x.rule is AllowAll && requires_resource(x.updater, core_badge),
            d.burn matches Some(x) && x.rule is AllowAll && requires_resource(x.updater, core_badge),
            d.recall is None,
            d.update_data is None,
            d.soulbound(),
    {
        ResourceDefinition {
            kind: ResourceKind::RuidNonFungible,
            owner: OwnerRule::NoOwner,
            name: "Arcane Member Badge".to_owned(),
            description: "this NFT grant access to member page of Arcane Labyrinth".to_owned(),
            icon_url: None,
            mint: Some(RoleRule { rule: AccessRule::AllowAll, updater: require_resource(core_badge.clone()) }),
            withdraw: Some(RoleRule { rule: AccessRule::DenyAll, updater: require_resource(core_badge.clone()) }),
            deposit: Some(RoleRule { rule: AccessRule::AllowAll, updater: require_resource(core_badge.clone()) }),
            burn: Some(RoleRule { rule: AccessRule::AllowAll, updater: require_resource(core_badge) }),
            recall: None,
            update_data: None,
        }
    }

    /// The rule of the component's `core` role: holding a `core_badge`.
    pub fn core_role(core_badge: String) -> (r: AccessRule)
        ensures
            requires_resource(r, core_badge),
    {
        require_resource(core_badge)
    }
}

} // verus!
