use vstd::prelude::*;

use crate::access::{
    AccessRule,
    OwnerRule,
    ResourceDefinition,
    ResourceKind,
    RoleRule,
    require_caller,
    require_resource,
    requires_caller,
    requires_resource,
};

verus! {

/// Defines the member badge resource of the main component.
pub struct ArcaneResourceManager {}

impl ArcaneResourceManager {
    /// The member badges: integer-numbered non-fungibles owned by the `core`
    /// badge, minted, burnt and updated only by the main component at
    /// `main_component_address`, recalled by the core badge, deposited by
    /// anyone, and never withdrawn. Every rule can be changed by the core
    /// badge only.
    pub fn instantiate(main_component_address: String, core: String) -> (d: ResourceDefinition)
        ensures
            d.kind == ResourceKind::IntegerNonFungible,
            d.owner matches OwnerRule::Fixed(o) && requires_resource(o, core),
            d.name@ == "Arcane Badge"@,
            d.description@ == "this NFT grant access to Arcane Labyrinth's member or admin pages"@,
            d.icon_url matches Some(u) && u@ == "https://i.ibb.co/2vtP4Kr/arcane.jpg"@,
            d.mint matches Some(m) && requires_caller(m.rule, main_component_address) && requires_resource(
                m.updater,
                core,
            ),
            d.withdraw matches Some(w) && w.rule is DenyAll && requires_resource(w.updater, core),
            d.recall matches Some(x) && requires_resource(x.rule, core) && requires_resource(x.updater, core),
            d.deposit matches Some(x) && x.rule is AllowAll && requires_resource(x.updater, core),
            d.burn matches Some(x) && requires_caller(x.rule, main_component_address) && requires_resource(
                x.updater,
                core,
            ),
            d.update_data matches Some(x) && requires_caller(x.rule, main_component_address)
                && requires_resource(x.updater, core),
            d.soulbound(),
    {
        ResourceDefinition {
            kind: ResourceKind::IntegerNonFungible,
            owner: OwnerRule::Fixed(require_resource(core.clone())),
            name: "Arcane Badge".to_owned(),
            description: "this NFT grant access to Arcane Labyrinth's member or admin pages".to_owned(),
            icon_url: Some("https://i.ibb.co/2vtP4Kr/arcane.jpg".to_owned()),
            mint: Some(
                RoleRule {
                    rule: require_caller(main_component_address.clone()),
                    updater: require_resource(core.clone()),
                },
            ),
            withdraw: Some(RoleRule { rule: AccessRule::DenyAll, updater: require_resource(core.clone()) }),
            recall: Some(
                RoleRule { rule: require_resource(core.clone()), updater: require_resource(core.clone()) },
            ),
            deposit: Some(RoleRule { rule: AccessRule::AllowAll, updater: require_resource(core.clone()) }),
            burn: Some(
                RoleRule {
                    rule: require_caller(main_component_address.clone()),
                    updater: require_resource(core.clone()),
                },
            ),
            update_data: Some(
                RoleRule { rule: require_caller(main_component_address), updater: require_resource(core) },
            ),
        }
    }
}

} // verus!
