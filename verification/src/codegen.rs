use vstd::prelude::*;

verus! {

/// A handle method of an actor, as the handler attribute reads it: the name
/// of the message type it takes, the name it binds the message to, the text
/// of the type it returns, and whether it is `async` (else it runs as
/// blocking code).
pub struct HandlerSpec {
    pub message: String,
    pub binding: String,
    pub output: String,
    pub is_async: bool,
}

/// An attribute of an item: the first segment of its path and its whole text.
pub struct AttrSpec {
    pub path: String,
    pub text: String,
}

/// A message declared in an actor module: its name, the text of its result
/// type and whether it is handled as blocking code (as `message_attr` reads
/// them from its attribute), and all its attributes, in order.
pub struct MessageSpec {
    pub ident: String,
    pub result: String,
    pub blocking: bool,
    pub attributes: Vec<AttrSpec>,
}

/// An enum variant `name(payload)` with one unnamed field of type `payload`.
#[derive(PartialEq, Eq, Debug)]
pub struct Variant {
    pub name: String,
    pub payload: String,
}

/// `impl From<source> for target`, whose `from(msg)` is `target::variant(msg)`.
#[derive(PartialEq, Eq, Debug)]
pub struct FromImpl {
    pub source: String,
    pub target: String,
    pub variant: String,
}

/// `impl MapResult<result_enum> for message` with `Output = output`, whose
/// `map` takes `result_enum::variant(result)` to `Ok(result)` when `wraps_ok`
/// (else to `result`, which is a `Result` already) and any other variant to
/// `unreachable!()`.
#[derive(PartialEq, Eq, Debug)]
pub struct MapResultImpl {
    pub message: String,
    pub result_enum: String,
    pub variant: String,
    pub output: String,
    pub wraps_ok: bool,
}

/// One arm of the generated `Handler::handle`: `message_enum::variant(binding)`
/// runs the handle method's body (in `actix_send_blocking` when `blocking`,
/// else in an `async move` block) and answers `result_enum::variant` of what
/// it gave.
#[derive(PartialEq, Eq, Debug)]
pub struct HandlerArm {
    pub message_enum: String,
    pub variant: String,
    pub binding: String,
    pub blocking: bool,
    pub result_enum: String,
}

/// What the actor attribute adds to an actor type: the `Message` and `Result`
/// types of its `Actor` impl, and whether it also gets a `Handler` impl that
/// takes `()` and does nothing (`no_static`).
#[derive(PartialEq, Eq, Debug)]
pub struct ActorItems {
    pub message_type: String,
    pub result_type: String,
    pub unit_handler: bool,
}

/// Everything generated for one actor: the message and result enums with
/// their variants, the `From` and `MapResult` impls, and the arms of
/// `Handler::handle`, one of each per handled message, in order.
pub struct ModPlan {
    pub enum_attributes: Vec<String>,
    pub message_enum: String,
    pub result_enum: String,
    pub messages: Vec<Variant>,
    pub results: Vec<Variant>,
    pub from_impls: Vec<FromImpl>,
    pub map_result_impls: Vec<MapResultImpl>,
    pub arms: Vec<HandlerArm>,
}

/// The payload of a result variant: the handler's output when it is `async`,
/// else `Result<output, ActixSendError>`, since blocking code may fail to run.
pub open spec fn result_payload(output: Seq<char>, is_async: bool) -> Seq<char> {
    if is_async {
        output
    } else {
        "Result<"@ + output + ", ActixSendError>"@
    }
}

/// The name of an actor's message enum.
pub open spec fn message_enum_name(actor: Seq<char>) -> Seq<char> {
    actor + "Message"@
}

/// The name of an actor's result enum.
pub open spec fn result_enum_name(actor: Seq<char>) -> Seq<char> {
    actor + "Result"@
}

pub open spec fn message_variant_of(v: Variant, h: HandlerSpec) -> bool {
    v.name@ == h.message@ && v.payload@ == h.message@
}

pub open spec fn result_variant_of(v: Variant, h: HandlerSpec) -> bool {
    v.name@ == h.message@ && v.payload@ == result_payload(h.output@, h.is_async)
}

pub open spec fn from_impl_of(f: FromImpl, target: Seq<char>, h: HandlerSpec) -> bool {
    f.source@ == h.message@ && f.target@ == target && f.variant@ == h.message@
}

pub open spec fn map_result_of(m: MapResultImpl, result_enum: Seq<char>, h: HandlerSpec) -> bool {
    &&& m.message@ == h.message@
    &&& m.result_enum@ == result_enum
    &&& m.variant@ == h.message@
    &&& m.output@ == h.output@
    &&& m.wraps_ok == h.is_async
}

pub open spec fn arm_of(
    a: HandlerArm,
    message_enum: Seq<char>,
    result_enum: Seq<char>,
    h: HandlerSpec,
) -> bool {
    &&& a.message_enum@ == message_enum
    &&& a.variant@ == h.message@
    &&& a.binding@ == h.binding@
    &&& a.blocking == !h.is_async
    &&& a.result_enum@ == result_enum
}

/// Entry `i` of a plan whose enums are `me` and `re`, for a handler of the
/// message `message` that binds it to `binding`, returns `output` and is
/// `async` or not: the two variants, the `From` and `MapResult` impls and the
/// arm of `Handler::handle`.
pub open spec fn plan_entry(
    p: ModPlan,
    i: int,
    message: Seq<char>,
    binding: Seq<char>,
    output: Seq<char>,
    is_async: bool,
) -> bool {
    &&& p.messages@[i].name@ == message
    &&& p.messages@[i].payload@ == message
    &&& p.results@[i].name@ == message
    &&& p.results@[i].payload@ == result_payload(output, is_async)
    &&& p.from_impls@[i].source@ == message
    &&& p.from_impls@[i].target@ == p.message_enum@
    &&& p.from_impls@[i].variant@ == message
    &&& p.map_result_impls@[i].message@ == message
    &&& p.map_result_impls@[i].result_enum@ == p.result_enum@
    &&& p.map_result_impls@[i].variant@ == message
    &&& p.map_result_impls@[i].output@ == output
    &&& p.map_result_impls@[i].wraps_ok == is_async
    &&& p.arms@[i].message_enum@ == p.message_enum@
    &&& p.arms@[i].variant@ == message
    &&& p.arms@[i].binding@ == binding
    &&& p.arms@[i].blocking == !is_async
    &&& p.arms@[i].result_enum@ == p.result_enum@
}

/// The plan's enums are named after `actor` and it has `n` entries of each kind.
pub open spec fn plan_shape(p: ModPlan, actor: Seq<char>, n: nat) -> bool {
    &&& p.message_enum@ == message_enum_name(actor)
    &&& p.result_enum@ == result_enum_name(actor)
    &&& p.messages@.len() == n
    &&& p.results@.len() == n
    &&& p.from_impls@.len() == n
    &&& p.map_result_impls@.len() == n
    &&& p.arms@.len() == n
}

/// The plan of an actor named `actor` that handles `handlers`: one entry of
/// each kind per handler, in the handlers' order.
pub open spec fn plan_of(p: ModPlan, actor: Seq<char>, handlers: Seq<HandlerSpec>) -> bool {
    &&& plan_shape(p, actor, handlers.len())
    &&& forall|i: int|
        0 <= i < handlers.len() ==> #[trigger] plan_entry(
            p,
            i,
            handlers[i].message@,
            handlers[i].binding@,
            handlers[i].output@,
            handlers[i].is_async,
        )
}

/// The plan of an actor module with the actor `actor` and the declared
/// `messages`: per message, in order, the entries of a handler that binds the
/// message to `msg`, returns its result type, and is `async` unless the
/// message is blocking.
pub open spec fn module_plan_of(p: ModPlan, actor: Seq<char>, messages: Seq<MessageSpec>) -> bool {
    &&& plan_shape(p, actor, messages.len())
    &&& forall|i: int|
        0 <= i < messages.len() ==> #[trigger] plan_entry(
            p,
            i,
            messages[i].ident@,
            "msg"@,
            messages[i].result@,
            messages[i].is_async(),
        )
}

/// The handler that an actor module makes of a declared message: it binds the
/// message to `msg`, returns the message's result type, and is `async` unless
/// the message is blocking.
pub open spec fn module_handler_of(h: HandlerSpec, m: MessageSpec) -> bool {
    &&& h.message@ == m.ident@
    &&& h.binding@ == "msg"@
    &&& h.output@ == m.result@
    &&& h.is_async == m.is_async()
}

impl MessageSpec {
    /// A message that is not blocking is handled by `async` code.
    pub open spec fn is_async(self) -> bool {
        !self.blocking
    }
}

/// The texts of the attributes that a message carries over to the message
/// enum: all but its `message` attributes, in order.
pub open spec fn kept_attributes(attrs: Seq<AttrSpec>) -> Seq<Seq<char>>
    decreases attrs.len(),
{
    if attrs.len() == 0 {
        Seq::empty()
    } else if attrs.last().path@ == "message"@ {
        kept_attributes(attrs.drop_last())
    } else {
        kept_attributes(attrs.drop_last()).push(attrs.last().text@)
    }
}

/// The attributes of the message enum of an actor module: those that the
/// declared messages carry over, message after message.
pub open spec fn module_attributes(messages: Seq<MessageSpec>) -> Seq<Seq<char>>
    decreases messages.len(),
{
    if messages.len() == 0 {
        Seq::empty()
    } else {
        module_attributes(messages.drop_last()) + kept_attributes(messages.last().attributes@)
    }
}

pub open spec fn texts(v: Seq<String>) -> Seq<Seq<char>> {
    v.map_values(|s: String| s@)
}

/// Some name in `handled` is the message's name.
pub open spec fn is_handled(m: MessageSpec, handled: Seq<String>) -> bool {
    exists|j: int| 0 <= j < handled.len() && (#[trigger] handled[j])@ == m.ident@
}

impl HandlerSpec {
    /// A handle method as the handler attribute reads it: the binding is
    /// `_msg` when the parameter is not a plain name, and the output is `()`
    /// when the method declares no return type.
    pub fn from_method(message: String, binding: Option<String>, output: Option<String>, is_async: bool) -> (h: Self)
        ensures
            h.message@ == message@,
            h.binding@ == (match binding {
                Some(b) => b@,
                None => "_msg"@,
            }),
            h.output@ == (match output {
                Some(o) => o@,
                None => "()"@,
            }),
            h.is_async == is_async,
    {
        let binding = match binding {
            Some(b) => b,
            None => String::from_str("_msg"),
        };
        let output = match output {
            Some(o) => o,
            None => String::from_str("()"),
        };
        HandlerSpec { message, binding, output, is_async }
    }

    /// The handler that an actor module makes of a declared message.
    pub fn from_message(m: &MessageSpec) -> (h: Self)
        ensures
            module_handler_of(h, *m),
    {
        HandlerSpec {
            message: m.ident.clone(),
            binding: String::from_str("msg"),
            output: m.result.clone(),
            is_async: !m.blocking,
        }
    }

    /// The payload of this handler's result variant.
    pub fn result_payload(&self) -> (s: String)
        ensures
            s@ == result_payload(self.output@, self.is_async),
    {
        if self.is_async {
            self.output.clone()
        } else {
            let mut s = String::from_str("Result<");
            s.append(self.output.as_str());
            s.append(", ActixSendError>");
            s
        }
    }
}

/// The names of an actor's message enum and result enum.
pub fn enum_names(actor: &String) -> (r: (String, String))
    ensures
        r.0@ == message_enum_name(actor@),
        r.1@ == result_enum_name(actor@),
{
    let mut m = actor.clone();
    m.append("Message");
    let mut r = actor.clone();
    r.append("Result");
    (m, r)
}

/// What the actor attribute adds to the actor type `ident`: with `no_static`,
/// an `Actor` impl over `()` and a `Handler` that ignores `()`; else an
/// `Actor` impl over the actor's message and result enums.
pub fn actor_items(ident: &String, no_static: bool) -> (r: ActorItems)
    ensures
        no_static ==> r.message_type@ == "()"@ && r.result_type@ == "()"@ && r.unit_handler,
        !no_static ==> r.message_type@ == message_enum_name(ident@) && r.result_type@
            == result_enum_name(ident@) && !r.unit_handler,
{
    if no_static {
        ActorItems {
            message_type: String::from_str("()"),
            result_type: String::from_str("()"),
            unit_handler: true,
        }
    } else {
        let (m, r) = enum_names(ident);
        ActorItems { message_type: m, result_type: r, unit_handler: false }
    }
}

/// The variants of the message enum and of the result enum: one per handler,
/// in order, each named after the handler's message; a message variant holds
/// the message, a result variant what the handler answers.
pub fn message_enums(handlers: &Vec<HandlerSpec>) -> (r: (Vec<Variant>, Vec<Variant>))
    ensures
        r.0@.len() == handlers@.len(),
        r.1@.len() == handlers@.len(),
        forall|i: int|
            0 <= i < handlers@.len() ==> message_variant_of(#[trigger] r.0@[i], handlers@[i])
                && result_variant_of(r.1@[i], handlers@[i]),
{
    let mut messages: Vec<Variant> = Vec::new();
    let mut results: Vec<Variant> = Vec::new();
    let mut i: usize = 0;
    while i < handlers.len()
        invariant
            i <= handlers@.len(),
            messages@.len() == i,
            results@.len() == i,
            forall|k: int|
                0 <= k < i ==> message_variant_of(#[trigger] messages@[k], handlers@[k])
                    && result_variant_of(results@[k], handlers@[k]),
        decreases handlers@.len() - i,
    {
        let h = &handlers[i];
        messages.push(Variant { name: h.message.clone(), payload: h.message.clone() });
        results.push(Variant { name: h.message.clone(), payload: h.result_payload() });
        i = i + 1;
    }
    (messages, results)
}

/// The `From` impls into the message enum `enum_ident`: one per handler, in
/// order, each putting its message into the variant of the same name.
pub fn from_impls(enum_ident: &String, handlers: &Vec<HandlerSpec>) -> (r: Vec<FromImpl>)
    ensures
        r@.len() == handlers@.len(),
        forall|i: int|
            0 <= i < handlers@.len() ==> from_impl_of(#[trigger] r@[i], enum_ident@, handlers@[i]),
{
    let mut out: Vec<FromImpl> = Vec::new();
    let mut i: usize = 0;
    while i < handlers.len()
        invariant
            i <= handlers@.len(),
            out@.len() == i,
            forall|k: int| 0 <= k < i ==> from_impl_of(#[trigger] out@[k], enum_ident@, handlers@[k]),
        decreases handlers@.len() - i,
    {
        let h = &handlers[i];
        out.push(
            FromImpl { source: h.message.clone(), target: enum_ident.clone(), variant: h.message.clone() },
        );
        i = i + 1;
    }
    out
}

/// The `MapResult` impls over the result enum `result_enum`: one per handler,
/// in order, with the handler's output as `Output`, wrapping an `async`
/// handler's answer in `Ok`.
pub fn map_result_impls(result_enum: &String, handlers: &Vec<HandlerSpec>) -> (r: Vec<MapResultImpl>)
    ensures
        r@.len() == handlers@.len(),
        forall|i: int|
            0 <= i < handlers@.len() ==> map_result_of(#[trigger] r@[i], result_enum@, handlers@[i]),
{
    let mut out: Vec<MapResultImpl> = Vec::new();
    let mut i: usize = 0;
    while i < handlers.len()
        invariant
            i <= handlers@.len(),
            out@.len() == i,
            forall|k: int| 0 <= k < i ==> map_result_of(#[trigger] out@[k], result_enum@, handlers@[k]),
        decreases handlers@.len() - i,
    {
        let h = &handlers[i];
        out.push(
            MapResultImpl {
                message: h.message.clone(),
                result_enum: result_enum.clone(),
                variant: h.message.clone(),
                output: h.output.clone(),
                wraps_ok: h.is_async,
            },
        );
        i = i + 1;
    }
    out
}

/// The arms of the generated `Handler::handle`: exactly one per handler, in
/// order, matching the handler's variant, binding the handler's own parameter
/// name, and running blocking handlers as blocking code.
pub fn handler_arms(message_enum: &String, result_enum: &String, handlers: &Vec<HandlerSpec>) -> (r: Vec<HandlerArm>)
    ensures
        r@.len() == handlers@.len(),
        forall|i: int|
            0 <= i < handlers@.len() ==> arm_of(#[trigger] r@[i], message_enum@, result_enum@, handlers@[i]),
{
    let mut out: Vec<HandlerArm> = Vec::new();
    let mut i: usize = 0;
    while i < handlers.len()
        invariant
            i <= handlers@.len(),
            out@.len() == i,
            forall|k: int|
                0 <= k < i ==> arm_of(#[trigger] out@[k], message_enum@, result_enum@, handlers@[k]),
        decreases handlers@.len() - i,
    {
        let h = &handlers[i];
        out.push(
            HandlerArm {
                message_enum: message_enum.clone(),
                variant: h.message.clone(),
                binding: h.binding.clone(),
                blocking: !h.is_async,
                result_enum: result_enum.clone(),
            },
        );
        i = i + 1;
    }
    out
}

/// Everything generated for the actor `actor` whose impl block holds the
/// handle methods `handlers`; its message enum gets no attributes.
pub fn handler_v2_plan(actor: &String, handlers: &Vec<HandlerSpec>) -> (r: ModPlan)
    ensures
        plan_of(r, actor@, handlers@),
        r.enum_attributes@.len() == 0,
{
    let (message_enum, result_enum) = enum_names(actor);
    let (messages, results) = message_enums(handlers);
    let from_impls = from_impls(&message_enum, handlers);
    let map_result_impls = map_result_impls(&result_enum, handlers);
    let arms = handler_arms(&message_enum, &result_enum, handlers);
    let r = ModPlan {
        enum_attributes: Vec::new(),
        message_enum,
        result_enum,
        messages,
        results,
        from_impls,
        map_result_impls,
        arms,
    };
    assert forall|i: int| 0 <= i < handlers@.len() implies #[trigger] plan_entry(
        r,
        i,
        handlers@[i].message@,
        handlers@[i].binding@,
        handlers@[i].output@,
        handlers@[i].is_async,
    ) by {
        assert(message_variant_of(r.messages@[i], handlers@[i]));
        assert(from_impl_of(r.from_impls@[i], r.message_enum@, handlers@[i]));
        assert(map_result_of(r.map_result_impls@[i], r.result_enum@, handlers@[i]));
        assert(arm_of(r.arms@[i], r.message_enum@, r.result_enum@, handlers@[i]));
    }
    r
}

proof fn lemma_plan_entry(p: ModPlan, actor: Seq<char>, hs: Seq<HandlerSpec>, k: int)
    requires
        plan_of(p, actor, hs),
        0 <= k < hs.len(),
    ensures
        plan_entry(p, k, hs[k].message@, hs[k].binding@, hs[k].output@, hs[k].is_async),
{
}

/// The texts of the attributes that `attrs` carry over, appended to `out`.
fn push_kept(attrs: &Vec<AttrSpec>, out: &mut Vec<String>)
    ensures
        texts(final(out)@) == texts(old(out)@) + kept_attributes(attrs@),
{
    let mut i: usize = 0;
    while i < attrs.len()
        invariant
            i <= attrs@.len(),
            texts(out@) == texts(old(out)@) + kept_attributes(attrs@.take(i as int)),
        decreases attrs@.len() - i,
    {
        proof {
            assert(attrs@.take(i + 1).drop_last() =~= attrs@.take(i as int));
            assert(attrs@.take(i + 1).last() == attrs@[i as int]);
        }
        let message = String::from_str("message");
        if attrs[i].path == message {
            assert(attrs@[i as int].path@ == "message"@);
        } else {
            let ghost before = out@;
            out.push(attrs[i].text.clone());
            proof {
                assert(texts(out@) =~= texts(before).push(attrs@[i as int].text@));
            }
        }
        i = i + 1;
    }
    assert(attrs@.take(attrs@.len() as int) =~= attrs@);
}

/// The attributes of the message enum of an actor module.
fn carried_attributes(messages: &Vec<MessageSpec>) -> (r: Vec<String>)
    ensures
        texts(r@) == module_attributes(messages@),
{
    let mut out: Vec<String> = Vec::new();
    let mut i: usize = 0;
    assert(texts(out@) =~= Seq::<Seq<char>>::empty());
    while i < messages.len()
        invariant
            i <= messages@.len(),
            texts(out@) == module_attributes(messages@.take(i as int)),
        decreases messages@.len() - i,
    {
        proof {
            assert(messages@.take(i + 1).drop_last() =~= messages@.take(i as int));
            assert(messages@.take(i + 1).last() == messages@[i as int]);
        }
        push_kept(&messages[i].attributes, &mut out);
        i = i + 1;
    }
    assert(messages@.take(messages@.len() as int) =~= messages@);
    out
}

/// Dispatch of a generated actor: for handlers of distinct messages, a message
/// that `From` puts into the message enum is taken by exactly one arm of
/// `Handler::handle`, that arm answers the result variant of the same name,
/// and the `MapResult` of that message takes that variant back out as the
/// handler's output.
pub proof fn law_dispatch_round_trip(p: ModPlan, actor: Seq<char>, hs: Seq<HandlerSpec>, i: int)
    requires
        plan_of(p, actor, hs),
        0 <= i < hs.len(),
        forall|a: int, b: int|
            0 <= a < hs.len() && 0 <= b < hs.len() && a != b ==> (#[trigger] hs[a]).message@
                != (#[trigger] hs[b]).message@,
    ensures
        p.from_impls@[i].source@ == hs[i].message@,
        p.arms@[i].variant@ == p.from_impls@[i].variant@,
        p.arms@[i].binding@ == hs[i].binding@,
        p.results@[i].name@ == p.arms@[i].variant@,
        p.map_result_impls@[i].message@ == hs[i].message@,
        p.map_result_impls@[i].variant@ == p.results@[i].name@,
        p.map_result_impls@[i].output@ == hs[i].output@,
        forall|j: int|
            0 <= j < hs.len() && (#[trigger] p.arms@[j]).variant@ == p.from_impls@[i].variant@
                ==> j == i,
{
    lemma_plan_entry(p, actor, hs, i);
    assert forall|j: int|
        0 <= j < hs.len() && (#[trigger] p.arms@[j]).variant@ == p.from_impls@[i].variant@ implies j
        == i by {
        lemma_plan_entry(p, actor, hs, j);
        if j != i {
            assert(hs[j].message@ != hs[i].message@);
        }
    }
}

/// Whether some name in `handled` is `ident`.
fn handled_contains(handled: &Vec<String>, ident: &String) -> (r: bool)
    ensures
        r == exists|j: int| 0 <= j < handled@.len() && (#[trigger] handled@[j])@ == ident@,
{
    let mut j: usize = 0;
    while j < handled.len()
        invariant
            j <= handled@.len(),
            forall|k: int| 0 <= k < j ==> (#[trigger] handled@[k])@ != ident@,
        decreases handled@.len() - j,
    {
        if handled[j] == *ident {
            return true;
        }
        j = j + 1;
    }
    false
}

/// Everything generated for an actor module: the actor `actor`, the messages
/// declared in it, in order, and the names of the messages that its handler
/// impls take. `None` exactly when some declared message has no handler;
/// else the plan of the handlers that the module makes of its messages.
pub fn actor_mod_plan(actor: String, messages: Vec<MessageSpec>, handled: Vec<String>) -> (r: Option<ModPlan>)
    ensures
        r is None <==> exists|i: int|
            0 <= i < messages@.len() && !is_handled(#[trigger] messages@[i], handled@),
        r matches Some(p) ==> module_plan_of(p, actor@, messages@) && texts(p.enum_attributes@)
            == module_attributes(messages@),
{
    let mut handlers: Vec<HandlerSpec> = Vec::new();
    let mut i: usize = 0;
    while i < messages.len()
        invariant
            i <= messages@.len(),
            handlers@.len() == i,
            forall|k: int| 0 <= k < i ==> module_handler_of(#[trigger] handlers@[k], messages@[k]),
            forall|k: int| 0 <= k < i ==> is_handled(#[trigger] messages@[k], handled@),
        decreases messages@.len() - i,
    {
        if !handled_contains(&handled, &messages[i].ident) {
            assert(!is_handled(messages@[i as int], handled@));
            return None;
        }
        handlers.push(HandlerSpec::from_message(&messages[i]));
        i = i + 1;
    }
    let base = handler_v2_plan(&actor, &handlers);
    let plan = ModPlan { enum_attributes: carried_attributes(&messages), ..base };
    assert(handlers@.len() == messages@.len());
    assert forall|k: int| 0 <= k < messages@.len() implies #[trigger] plan_entry(
        plan,
        k,
        messages@[k].ident@,
        "msg"@,
        messages@[k].result@,
        messages@[k].is_async(),
    ) by {
        lemma_plan_entry(base, actor@, handlers@, k);
        assert(module_handler_of(handlers@[k], messages@[k]));
    }
    Some(plan)
}


/// The attributes carried to the message enum are exactly the message's
/// attributes whose path is not `message`, in their order, whatever their
/// number.
pub proof fn law_kept_attributes_filter(attrs: Seq<AttrSpec>)
    ensures
        kept_attributes(attrs) == attrs.filter(|a: AttrSpec| a.path@ != "message"@).map_values(
            |a: AttrSpec| a.text@,
        ),
    decreases attrs.len(),
{
    let pred = |a: AttrSpec| a.path@ != "message"@;
    let f = |a: AttrSpec| a.text@;
    if attrs.len() > 0 {
        law_kept_attributes_filter(attrs.drop_last());
        let sub = attrs.drop_last().filter(pred);
        assert(attrs.drop_last().push(attrs.last()) =~= attrs);
        attrs.drop_last().lemma_filter_push(attrs.last(), pred);
        assert(attrs.filter(pred) == (if pred(attrs.last()) {
            sub.push(attrs.last())
        } else {
            sub
        }));
        assert(sub.push(attrs.last()).map_values(f) =~= sub.map_values(f).push(f(attrs.last())));
    } else {
        assert(attrs.filter(pred).map_values(f) =~= Seq::<Seq<char>>::empty());
    }
}

} // verus!
