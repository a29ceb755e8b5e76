use actix_send::codegen::{
    actor_items, actor_mod_plan, from_impls, handler_arms, handler_v2_plan, map_result_impls,
    message_enums, ActorItems, AttrSpec, FromImpl, HandlerArm, HandlerSpec, MapResultImpl, MessageSpec,
    Variant,
};

fn s(x: &str) -> String {
    x.to_string()
}

fn handlers() -> Vec<HandlerSpec> {
    vec![
        // async fn handle(&mut self, msg: Msg1) -> u8
        HandlerSpec::from_method(s("Msg1"), Some(s("msg")), Some(s("u8")), true),
        // fn handle(&mut self, m: Msg2) -> u16 (blocking)
        HandlerSpec::from_method(s("Msg2"), Some(s("m")), Some(s("u16")), false),
        // async fn handle(&mut self, (a, b): Msg3)
        HandlerSpec::from_method(s("Msg3"), None, None, true),
    ]
}

fn v(name: &str, payload: &str) -> Variant {
    Variant { name: s(name), payload: s(payload) }
}

#[test]
fn enum_variants_follow_the_handlers() {
    let (messages, results) = message_enums(&handlers());
    assert_eq!(messages, vec![v("Msg1", "Msg1"), v("Msg2", "Msg2"), v("Msg3", "Msg3")]);
    assert_eq!(
        results,
        vec![
            v("Msg1", "u8"),
            v("Msg2", "Result<u16, ActixSendError>"),
            v("Msg3", "()"),
        ]
    );
}

#[test]
fn from_and_map_result_impls() {
    let hs = handlers();
    let froms = from_impls(&s("MyActorMessage"), &hs);
    assert_eq!(
        froms[1],
        FromImpl { source: s("Msg2"), target: s("MyActorMessage"), variant: s("Msg2") }
    );
    let maps = map_result_impls(&s("MyActorResult"), &hs);
    assert_eq!(
        maps[0],
        MapResultImpl {
            message: s("Msg1"),
            result_enum: s("MyActorResult"),
            variant: s("Msg1"),
            output: s("u8"),
            wraps_ok: true,
        }
    );
    // A blocking handler's answer is a `Result` already.
    assert!(!maps[1].wraps_ok);
    assert_eq!(maps[2].output, "()");
}

#[test]
fn handler_arms_bind_each_handlers_own_name() {
    let arms = handler_arms(&s("AMessage"), &s("AResult"), &handlers());
    assert_eq!(arms.len(), 3);
    assert_eq!(
        arms[1],
        HandlerArm {
            message_enum: s("AMessage"),
            variant: s("Msg2"),
            binding: s("m"),
            blocking: true,
            result_enum: s("AResult"),
        }
    );
    assert_eq!(arms[2].binding, "_msg");
}

#[test]
fn actor_attribute_items() {
    assert_eq!(
        actor_items(&s("MyActor"), false),
        ActorItems {
            message_type: s("MyActorMessage"),
            result_type: s("MyActorResult"),
            unit_handler: false,
        }
    );
    assert_eq!(
        actor_items(&s("MyActor"), true),
        ActorItems { message_type: s("()"), result_type: s("()"), unit_handler: true }
    );
}

#[test]
fn handler_v2_plan_of_an_actor() {
    let plan = handler_v2_plan(&s("MyActor"), &handlers());
    assert_eq!(plan.message_enum, "MyActorMessage");
    assert_eq!(plan.result_enum, "MyActorResult");
    assert_eq!(plan.from_impls[0].target, "MyActorMessage");
    assert_eq!(plan.arms[0].result_enum, "MyActorResult");
    assert_eq!(plan.results[1].payload, "Result<u16, ActixSendError>");
    assert!(plan.enum_attributes.is_empty());
}

#[test]
fn actor_module_needs_a_handler_per_message() {
    let messages = || {
        vec![
            MessageSpec {
                ident: s("Message1"),
                result: s("u8"),
                blocking: false,
                attributes: vec![
                    AttrSpec { path: s("message"), text: s("#[message(result = \"u8\")]") },
                    AttrSpec { path: s("derive"), text: s("#[derive(Clone)]") },
                ],
            },
            MessageSpec {
                ident: s("Message2"),
                result: s("u16"),
                blocking: true,
                attributes: vec![AttrSpec { path: s("derive"), text: s("#[derive(Debug)]") }],
            },
        ]
    };
    let plan = actor_mod_plan(s("MyActor"), messages(), vec![s("Message2"), s("Message1")])
        .expect("every message has a handler");
    // Entries follow the declared messages, not the handlers.
    assert_eq!(plan.messages[0], v("Message1", "Message1"));
    assert_eq!(plan.results[1], v("Message2", "Result<u16, ActixSendError>"));
    assert_eq!(plan.arms[0].binding, "msg");
    assert!(plan.arms[1].blocking);
    assert!(plan.map_result_impls[0].wraps_ok);
    // The message enum takes every attribute of the messages but `message`.
    assert_eq!(plan.enum_attributes, vec![s("#[derive(Clone)]"), s("#[derive(Debug)]")]);

    assert!(actor_mod_plan(s("MyActor"), messages(), vec![s("Message1")]).is_none());
}

#[test]
fn a_message_goes_in_and_out_under_one_name() {
    let plan = handler_v2_plan(&s("A"), &handlers());
    for i in 0..3 {
        let variant = &plan.from_impls[i].variant;
        let takers: Vec<&HandlerArm> = plan.arms.iter().filter(|a| &a.variant == variant).collect();
        assert_eq!(takers.len(), 1);
        assert_eq!(&plan.results[i].name, variant);
        assert_eq!(&plan.map_result_impls[i].variant, variant);
    }
}
