use vstd::prelude::*;

verus! {

/// What an access rule asks of a caller.
pub enum Requirement {
    /// A proof of a badge of this resource.
    Resource(String),
    /// That the call comes from this global component.
    GlobalCaller(String),
}

/// Who may perform an action on a resource.
pub enum AccessRule {
    AllowAll,
    DenyAll,
    Require(Requirement),
    /// Either requirement is enough.
    AnyOf(Requirement, Requirement),
}

/// The rule for an action, and the rule for changing that rule.
pub struct RoleRule {
    pub rule: AccessRule,
    pub updater: AccessRule,
}

/// The kind of a resource.
#[derive(Clone, Copy, PartialEq, Eq, Structural, Debug)]
pub enum ResourceKind {
    /// A fungible resource with this many decimal places.
    Fungible(u8),
    /// Non-fungibles with integer ids.
    IntegerNonFungible,
    /// Non-fungibles with random ids.
    RuidNonFungible,
}

/// Who owns a resource.
pub enum OwnerRule {
    NoOwner,
    Fixed(AccessRule),
}

/// Everything a resource is created with: its kind, owner, metadata and the
/// rules of each action (an action without a rule keeps the default).
pub struct ResourceDefinition {
    pub kind: ResourceKind,
    pub owner: OwnerRule,
    pub name: String,
    pub description: String,
    pub icon_url: Option<String>,
    pub mint: Option<RoleRule>,
    pub burn: Option<RoleRule>,
    pub withdraw: Option<RoleRule>,
    pub deposit: Option<RoleRule>,
    pub recall: Option<RoleRule>,
    pub update_data: Option<RoleRule>,
}

impl ResourceDefinition {
    /// Badges of the resource can never leave the account they are deposited
    /// to: withdrawing is denied to everyone.
    pub open spec fn soulbound(&self) -> bool {
        self.withdraw matches Some(r) && r.rule is DenyAll
    }
}

/// Whether `r` is the rule `require(resource)`.
pub open spec fn requires_resource(r: AccessRule, resource: String) -> bool {
    r matches AccessRule::Require(Requirement::Resource(x)) && x == resource
}

/// Whether `r` is the rule `require(global_caller(component))`.
pub open spec fn requires_caller(r: AccessRule, component: String) -> bool {
    r matches AccessRule::Require(Requirement::GlobalCaller(x)) && x == component
}

/// The rule `require(resource)`.
pub fn require_resource(resource: String) -> (r: AccessRule)
    ensures
        requires_resource(r, resource),
{
    AccessRule::Require(Requirement::Resource(resource))
}

/// The rule `require(global_caller(component))`.
pub fn require_caller(component: String) -> (r: AccessRule)
    ensures
        requires_caller(r, component),
{
    AccessRule::Require(Requirement::GlobalCaller(component))
}

} // verus!
