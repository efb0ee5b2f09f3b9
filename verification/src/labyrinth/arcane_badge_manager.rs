use vstd::prelude::*;

use crate::access::{
    AccessRule,
    OwnerRule,
    Requirement,
    ResourceDefinition,
    ResourceKind,
    RoleRule,
    require_caller,
    require_resource,
    requires_caller,
    requires_resource,
};

verus! {

/// The core badge resource that owns the Labyrinth's badges.
pub open spec fn core_badge_spec() -> Seq<char> {
    "resource_tdx_2_1nfy2ctxgmwmdrhgvk7he7ft4sfwk6lzcpkduw2mdx8xuc0p6uny7rn"@
}

/// Defines the badge resources of the Labyrinth.
pub struct ArcaneBadgeManager {}

impl ArcaneBadgeManager {
    /// The address of the core badge resource.
    pub fn core_badge() -> (r: String)
        ensures
            r@ == core_badge_spec(),
    {
        "resource_tdx_2_1nfy2ctxgmwmdrhgvk7he7ft4sfwk6lzcpkduw2mdx8xuc0p6uny7rn".to_owned()
    }

    /// The badge that vote components hold: fungible with no decimals, owned
    /// by the core badge, minted only by the main component at
    /// `main_component_address`, deposited by anyone, and never recalled,
    /// withdrawn or burnt. Every rule can be changed by the core badge only.
    pub fn vote_component_badge(main_component_address: String) -> (d: ResourceDefinition)
        ensures
            d.kind == ResourceKind::Fungible(0),
            d.owner is Fixed,
            d.owner->Fixed_0 matches AccessRule::Require(Requirement::Resource(c)) && c@ == core_badge_spec(),
            d.name@ == "Vote Component Badge"@,
            d.description@ == "This badge grant access to other component's methods"@,
            d.icon_url is None,
            d.mint matches Some(m) && requires_caller(m.rule, main_component_address) && requires_resource(
                m.updater,
                d.owner->Fixed_0->Require_0->Resource_0,
            ),
            d.deposit matches Some(x) && x.rule is AllowAll && requires_resource(
                x.updater,
                d.owner->Fixed_0->Require_0->Resource_0,
            ),
            d.recall matches Some(x) && x.rule is DenyAll && requires_resource(
                x.updater,
                d.owner->Fixed_0->Require_0->Resource_0,
            ),
            d.withdraw matches Some(x) && x.rule is DenyAll && requires_resource(
                x.updater,
                d.owner->Fixed_0->Require_0->Resource_0,
            ),
            d.burn matches Some(x) && x.rule is DenyAll && requires_resource(
                x.updater,
                d.owner->Fixed_0->Require_0->Resource_0,
            ),
            d.update_data is None,
            d.soulbound(),
    {
        let core = Self::core_badge();
        ResourceDefinition {
            kind: ResourceKind::Fungible(0),
            owner: OwnerRule::Fixed(require_resource(core.clone())),
            name: "Vote Component Badge".to_owned(),
            description: "This badge grant access to other component's methods".to_owned(),
            icon_url: None,
            mint: Some(
                RoleRule { rule: require_caller(main_component_address), updater: require_resource(core.clone()) },
            ),
            deposit: Some(RoleRule { rule: AccessRule::AllowAll, updater: require_resource(core.clone()) }),
            recall: Some(RoleRule { rule: AccessRule::DenyAll, updater: require_resource(core.clone()) }),
            withdraw: Some(RoleRule { rule: AccessRule::DenyAll, updater: require_resource(core.clone()) }),
            burn: Some(RoleRule { rule: AccessRule::DenyAll, updater: require_resource(core) }),
            update_data: None,
        }
    }

    /// The member badges: random-id non-fungibles with no owner, minted,
    /// deposited and burnt by anyone, recalled by the core badge, never
    /// withdrawn, and updated by the main component at
    /// `main_component_address` or a holder of the vote component badge
    /// `vote_component_badge`. Every rule can be changed by the core badge only.
    pub fn member_badge(main_component_address: String, vote_component_badge: String) -> (d: ResourceDefinition)
        ensures
            d.kind == ResourceKind::RuidNonFungible,
            d.owner is NoOwner,
            d.name@ == "Arcane Badge"@,
            d.description@ == "this NFT grant access to Arcane Labyrinth's member or admin pages"@,
            d.icon_url is None,
            d.mint is Some,
            d.mint->Some_0.rule is AllowAll,
            d.mint->Some_0.updater matches AccessRule::Require(Requirement::Resource(c)) && c@
                == core_badge_spec(),
            d.withdraw matches Some(x) && x.rule is DenyAll && x.updater == d.mint->Some_0.updater,
            d.recall matches Some(x) && x.rule == d.mint->Some_0.updater && x.updater == d.mint->Some_0.updater,
            d.deposit matches Some(x) && x.rule is AllowAll && x.updater == d.mint->Some_0.updater,
            d.burn matches Some(x) && x.rule is AllowAll && x.updater == d.mint->Some_0.updater,
            d.update_data is Some,
            d.update_data->Some_0.rule matches AccessRule::AnyOf(
                Requirement::GlobalCaller(a),
                Requirement::Resource(b),
            ) && a == main_component_address && b == vote_component_badge,
            d.update_data->Some_0.updater == d.mint->Some_0.updater,
            d.soulbound(),
    {
        let core = Self::core_badge();
        ResourceDefinition {
            kind: ResourceKind::RuidNonFungible,
            owner: OwnerRule::NoOwner,
            name: "Arcane Badge".to_owned(),
            description: "this NFT grant access to Arcane Labyrinth's member or admin pages".to_owned(),
            icon_url: None,
            mint: Some(RoleRule { rule: AccessRule::AllowAll, updater: require_resource(core.clone()) }),
            withdraw: Some(RoleRule { rule: AccessRule::DenyAll, updater: require_resource(core.clone()) }),
            recall: Some(
                RoleRule { rule: require_resource(core.clone()), updater: require_resource(core.clone()) },
            ),
            deposit: Some(RoleRule { rule: AccessRule::AllowAll, updater: require_resource(core.clone()) }),
            burn: Some(RoleRule { rule: AccessRule::AllowAll, updater: require_resource(core.clone()) }),
            update_data: Some(
                RoleRule {
                    rule: AccessRule::AnyOf(
                        Requirement::GlobalCaller(main_component_address),
                        Requirement::Resource(vote_component_badge),
                    ),
                    updater: require_resource(core),
                },
            ),
        }
    }
}

} // verus!
