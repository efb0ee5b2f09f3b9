use arcane_vote::access::{AccessRule, OwnerRule, Requirement, ResourceKind};
use arcane_vote::arcane_main::resource_manager::ArcaneResourceManager;
use arcane_vote::labyrinth::arcane_badge_manager::ArcaneBadgeManager;
use arcane_vote::labyrinth::arcane_resources::ArcaneResources;

fn s(x: &str) -> String {
    x.to_string()
}

fn is_resource(r: &AccessRule, x: &str) -> bool {
    matches!(r, AccessRule::Require(Requirement::Resource(a)) if a == x)
}

fn is_caller(r: &AccessRule, x: &str) -> bool {
    matches!(r, AccessRule::Require(Requirement::GlobalCaller(a)) if a == x)
}

#[test]
fn main_member_badges_are_soulbound_and_minted_by_main() {
    let d = ArcaneResourceManager::instantiate(s("main"), s("core"));
    assert_eq!(d.kind, ResourceKind::IntegerNonFungible);
    assert!(matches!(&d.owner, OwnerRule::Fixed(r) if is_resource(r, "core")));
    assert_eq!(d.name, s("Arcane Badge"));
    assert_eq!(d.icon_url, Some(s("https://i.ibb.co/2vtP4Kr/arcane.jpg")));
    let mint = d.mint.as_ref().unwrap();
    assert!(is_caller(&mint.rule, "main"));
    assert!(is_resource(&mint.updater, "core"));
    assert!(matches!(d.withdraw.as_ref().unwrap().rule, AccessRule::DenyAll));
    assert!(matches!(d.deposit.as_ref().unwrap().rule, AccessRule::AllowAll));
    assert!(is_resource(&d.recall.as_ref().unwrap().rule, "core"));
    assert!(is_caller(&d.burn.as_ref().unwrap().rule, "main"));
    assert!(is_caller(&d.update_data.as_ref().unwrap().rule, "main"));
}

#[test]
fn labyrinth_badges() {
    let core = ArcaneBadgeManager::core_badge();
    assert_eq!(core, s("resource_tdx_2_1nfy2ctxgmwmdrhgvk7he7ft4sfwk6lzcpkduw2mdx8xuc0p6uny7rn"));
    let vote = ArcaneBadgeManager::vote_component_badge(s("main"));
    assert_eq!(vote.kind, ResourceKind::Fungible(0));
    assert_eq!(vote.name, s("Vote Component Badge"));
    assert!(is_caller(&vote.mint.as_ref().unwrap().rule, "main"));
    assert!(matches!(vote.burn.as_ref().unwrap().rule, AccessRule::DenyAll));
    assert!(matches!(vote.withdraw.as_ref().unwrap().rule, AccessRule::DenyAll));
    let member = ArcaneBadgeManager::member_badge(s("main"), s("vote_badge"));
    assert_eq!(member.kind, ResourceKind::RuidNonFungible);
    assert!(matches!(member.owner, OwnerRule::NoOwner));
    assert!(matches!(member.withdraw.as_ref().unwrap().rule, AccessRule::DenyAll));
    assert!(matches!(
        &member.update_data.as_ref().unwrap().rule,
        AccessRule::AnyOf(Requirement::GlobalCaller(a), Requirement::Resource(b)) if a == "main" && b == "vote_badge"
    ));
    assert!(is_resource(&member.update_data.as_ref().unwrap().updater, &core));
}

#[test]
fn resources_badges() {
    let core = ArcaneResources::core_badge();
    assert_eq!(core.name, s("Arcane Core Badge"));
    assert!(core.mint.is_none() && core.withdraw.is_none());
    let admin = ArcaneResources::admin_badges(s("component"), s("core"));
    assert_eq!(admin.name, s("Arcane Admin Badge"));
    assert!(is_caller(&admin.mint.as_ref().unwrap().rule, "component"));
    assert!(matches!(admin.withdraw.as_ref().unwrap().rule, AccessRule::DenyAll));
    let member = ArcaneResources::member_badges(s("core"));
    assert_eq!(member.name, s("Arcane Member Badge"));
    assert!(matches!(member.mint.as_ref().unwrap().rule, AccessRule::AllowAll));
    assert!(member.recall.is_none());
    assert!(is_resource(&ArcaneResources::core_role(s("core")), "core"));
}
