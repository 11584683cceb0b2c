use heaven::bot::{component_action, decision_reply, greeting_plan, ComponentAction};
use heaven::server::{login_status, STATUS_OK, STATUS_UNAUTHORIZED};
use heaven::{Authorization, MinecraftType};

#[test]
fn login_status_allows_only_on_allow() {
    assert_eq!(login_status(Some(Authorization::Allow)), 200);
    assert_eq!(login_status(Some(Authorization::Deny)), 401);
    assert_eq!(login_status(None), 401);
    assert_eq!(STATUS_OK, 200);
    assert_eq!(STATUS_UNAUTHORIZED, 401);
}

#[test]
fn component_identifiers() {
    assert_eq!(component_action("register"), Some(ComponentAction::Register));
    assert_eq!(component_action("authorization/allow"), Some(ComponentAction::Allow));
    assert_eq!(component_action("authorization/deny"), Some(ComponentAction::Deny));
    assert_eq!(component_action("authorization/"), None);
    assert_eq!(component_action(""), None);
    assert_eq!(component_action("Register"), None);
}

#[test]
fn decision_replies() {
    assert_eq!(decision_reply(Authorization::Allow, true), "Authorization allowed! ✅");
    assert_eq!(
        decision_reply(Authorization::Allow, false),
        "Error: Authorization expired or already allowed!"
    );
    assert_eq!(decision_reply(Authorization::Deny, true), "Authorization denied! ❌");
    assert_eq!(
        decision_reply(Authorization::Deny, false),
        "Error: Authorization expired or already denied!"
    );
}

#[test]
fn greeting_keeps_latest_own_message() {
    let plan = greeting_plan(&vec![5, 7, 5, 9, 5, 7], 5);
    assert_eq!(plan.edit, Some(4));
    assert_eq!(plan.delete, vec![0, 2]);

    let plan = greeting_plan(&vec![7, 5, 9], 5);
    assert_eq!(plan.edit, Some(1));
    assert!(plan.delete.is_empty());

    let plan = greeting_plan(&vec![7, 9], 5);
    assert_eq!(plan.edit, None);
    assert!(plan.delete.is_empty());

    let plan = greeting_plan(&vec![], 5);
    assert_eq!(plan.edit, None);
    assert!(plan.delete.is_empty());
}

#[test]
fn minecraft_type_names() {
    assert_eq!(MinecraftType::Premium.as_str(), "premium");
    assert_eq!(MinecraftType::Cracked.as_str(), "cracked");
    assert_eq!(MinecraftType::Premium.to_string(), "premium");
    assert_eq!(MinecraftType::Cracked.to_string(), "cracked");
}

#[test]
fn minecraft_type_parsing() {
    assert_eq!(MinecraftType::from_str("premium"), Ok(MinecraftType::Premium));
    assert_eq!(MinecraftType::from_str("cracked"), Ok(MinecraftType::Cracked));
    assert_eq!(
        MinecraftType::from_str("Cracked"),
        Err("unknown minecraft type of Cracked".to_string())
    );
    assert_eq!(MinecraftType::from_str(""), Err("unknown minecraft type of ".to_string()));
    for t in [MinecraftType::Premium, MinecraftType::Cracked] {
        assert_eq!(MinecraftType::from_str(t.as_str()), Ok(t));
    }
}
