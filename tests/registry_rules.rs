use tool_escrow::error::ContractError;
use tool_escrow::registry::{
    execute, execute_pause_tool, execute_register_tool, execute_resume_tool, execute_update_denom,
    execute_update_endpoint, execute_update_price, query_all_tools, query_tool, validate_endpoint,
    ExecuteMsg, ToolMeta,
};

fn tool(provider: &str) -> ToolMeta {
    execute_register_tool(
        provider.to_string(),
        "t1".to_string(),
        5,
        None,
        "desc".to_string(),
        "https://a.example".to_string(),
    )
    .unwrap()
}

#[test]
fn endpoint_validation() {
    assert_eq!(validate_endpoint("https://x"), Ok(()));
    assert_eq!(validate_endpoint("https://"), Ok(()));
    assert_eq!(validate_endpoint("http://x"), Err(ContractError::InvalidEndpointFormat));
    assert_eq!(validate_endpoint("https:/"), Err(ContractError::InvalidEndpointFormat));
    assert_eq!(validate_endpoint(""), Err(ContractError::InvalidEndpointFormat));
    let ok = format!("https://{}", "a".repeat(504));
    assert_eq!(validate_endpoint(&ok), Ok(()));
    let long = format!("https://{}", "a".repeat(505));
    assert_eq!(validate_endpoint(&long), Err(ContractError::EndpointTooLong));
    assert_eq!(validate_endpoint(&"x".repeat(513)), Err(ContractError::EndpointTooLong));
}

#[test]
fn register_defaults_and_limits() {
    let t = tool("prov");
    assert_eq!(t.provider, "prov");
    assert_eq!(t.price, 5);
    assert_eq!(t.denom, "untrn");
    assert!(t.is_active);
    let with_denom = execute_register_tool(
        "p".into(),
        "t".into(),
        1,
        Some("uatom".into()),
        "d".into(),
        "https://e".into(),
    )
    .unwrap();
    assert_eq!(with_denom.denom, "uatom");
    let r = execute_register_tool("p".into(), "a".repeat(17), 1, None, "d".into(), "https://e".into());
    assert_eq!(r.err(), Some(ContractError::ToolIdTooLong));
    let r = execute_register_tool("p".into(), "a".repeat(16), 1, None, "d".repeat(257), "https://e".into());
    assert_eq!(r.err(), Some(ContractError::DescriptionTooLong));
    let r = execute_register_tool("p".into(), "a".into(), 1, None, "d".repeat(256), "ftp://e".into());
    assert_eq!(r.err(), Some(ContractError::InvalidEndpointFormat));
}

#[test]
fn updates_need_owner() {
    let p = "prov".to_string();
    let q = "other".to_string();
    assert_eq!(execute_update_price(None, &p, 9).err(), Some(ContractError::ToolNotFound));
    assert_eq!(execute_update_price(Some(tool("prov")), &q, 9).err(), Some(ContractError::Unauthorized));
    assert_eq!(execute_update_price(Some(tool("prov")), &p, 9).unwrap().price, 9);
    assert!(!execute_pause_tool(Some(tool("prov")), &p).unwrap().is_active);
    assert_eq!(execute_pause_tool(Some(tool("prov")), &q).err(), Some(ContractError::Unauthorized));
    let paused = execute_pause_tool(Some(tool("prov")), &p).unwrap();
    assert!(execute_resume_tool(Some(paused), &p).unwrap().is_active);
    assert_eq!(execute_resume_tool(None, &p).err(), Some(ContractError::ToolNotFound));
    assert_eq!(execute_update_denom(Some(tool("prov")), &p, "uatom".into()).unwrap().denom, "uatom");
    assert_eq!(
        execute_update_denom(Some(tool("prov")), &q, "uatom".into()).err(),
        Some(ContractError::Unauthorized)
    );
    assert_eq!(
        execute_update_endpoint(Some(tool("prov")), &p, "https://new".into()).unwrap().endpoint,
        "https://new"
    );
    // the endpoint is checked before the tool is looked up
    assert_eq!(
        execute_update_endpoint(None, &q, "http://new".into()).err(),
        Some(ContractError::InvalidEndpointFormat)
    );
    assert_eq!(
        execute_update_endpoint(None, &q, "https://new".into()).err(),
        Some(ContractError::ToolNotFound)
    );
}

#[test]
fn dispatch_and_queries() {
    let msg = ExecuteMsg::UpdatePrice { tool_id: "t1".into(), price: 42 };
    assert_eq!(msg.tool_id(), "t1");
    let t = execute(Some(tool("prov")), "prov".into(), msg).unwrap();
    assert_eq!(t.price, 42);
    let reg = ExecuteMsg::RegisterTool {
        tool_id: "t2".into(),
        price: 3,
        denom: None,
        description: "d".into(),
        endpoint: "https://z".into(),
    };
    let t2 = execute(None, "me".into(), reg).unwrap();
    assert_eq!(t2.provider, "me");
    assert!(query_tool("none".into(), None).is_none());
    let r = query_tool("t1".into(), Some(tool("prov"))).unwrap();
    assert_eq!(r.tool_id, "t1");
    assert_eq!(r.provider, "prov");
    assert_eq!(r.price, 5);
    let all = query_all_tools(&vec![("a".to_string(), tool("x")), ("b".to_string(), tool("y"))]);
    assert_eq!(all.len(), 2);
    assert_eq!(all[0].tool_id, "a");
    assert_eq!(all[1].provider, "y");
}
