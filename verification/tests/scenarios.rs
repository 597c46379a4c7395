use std::cell::RefCell;
use std::collections::HashMap;

use nixrs::context::{NIX_ERR_KEY, NIX_ERR_NIX_ERROR, NIX_OK};
use nixrs::engine::{Call, Function, Handle, Release, Reply};
use nixrs::init;
use nixrs::operation::{Output, Step};
use nixrs::path::StorePath;
use nixrs::progress::run;
use nixrs::state::State;
use nixrs::store::Store;
use nixrs::utils::{build_cb, get_string_cb, Error, Outputs};
use nixrs::value::{Value, ValueType};

/// What a slot of the stand-in engine holds.
#[derive(Clone, Debug, PartialEq)]
enum Slot {
    Empty,
    Int(i64),
    Float(u64),
    Bool(bool),
    Str(Vec<u8>),
    Path(Vec<u8>),
    Null,
    Attrs(Vec<(Vec<u8>, usize)>),
    List(Vec<usize>),
    Apply(usize, usize),
}

/// A stand-in for the engine: it keeps values in slots, counts references,
/// and panics when something is given back that is not live.
struct Engine {
    next: usize,
    contexts: HashMap<usize, (i32, Vec<u8>)>,
    stores: Vec<usize>,
    paths: HashMap<usize, Vec<u8>>,
    states: Vec<usize>,
    slots: HashMap<usize, Slot>,
    counts: HashMap<usize, usize>,
    bindings: HashMap<usize, Vec<(Vec<u8>, usize)>>,
    lists: HashMap<usize, Vec<usize>>,
    strings: HashMap<usize, Vec<u8>>,
    calls: usize,
    opened: usize,
    closed: usize,
}

fn text(bytes: &[u8]) -> Vec<u8> {
    assert_eq!(bytes.last(), Some(&0), "a C string ends in its nul");
    let text = bytes[..bytes.len() - 1].to_vec();
    assert!(!text.contains(&0), "a C string holds no other nul");
    text
}

impl Engine {
    fn new() -> Engine {
        Engine {
            next: 0x1000,
            contexts: HashMap::new(),
            stores: Vec::new(),
            paths: HashMap::new(),
            states: Vec::new(),
            slots: HashMap::new(),
            counts: HashMap::new(),
            bindings: HashMap::new(),
            lists: HashMap::new(),
            strings: HashMap::new(),
            calls: 0,
            opened: 0,
            closed: 0,
        }
    }

    fn fresh(&mut self) -> usize {
        self.next += 0x10;
        self.next
    }

    fn slot(&mut self, content: Slot) -> usize {
        let at = self.fresh();
        self.slots.insert(at, content);
        self.counts.insert(at, 0);
        at
    }

    fn string(&mut self, bytes: Vec<u8>) -> Handle {
        let at = self.fresh();
        self.strings.insert(at, bytes);
        Handle { addr: at }
    }

    /// How many resources are out: contexts, stores, paths, states, counted
    /// references and builders.
    fn live(&self) -> usize {
        self.contexts.len()
            + self.stores.len()
            + self.paths.len()
            + self.states.len()
            + self.counts.values().sum::<usize>()
            + self.bindings.len()
            + self.lists.len()
    }

    fn fail(&mut self, ctx: usize, code: i32, message: &str) {
        self.contexts.insert(ctx, (code, message.as_bytes().to_vec()));
    }

    fn release(&mut self, release: Release) {
        let gone = match release {
            Release::Context(h) => self.contexts.remove(&h.addr).is_some(),
            Release::Store(h) => {
                self.closed += 1;
                let before = self.stores.len();
                self.stores.retain(|s| *s != h.addr);
                self.stores.len() < before
            }
            Release::StorePath(h) => self.paths.remove(&h.addr).is_some(),
            Release::State(h) => {
                let before = self.states.len();
                self.states.retain(|s| *s != h.addr);
                self.states.len() < before
            }
            Release::Value(h) => match self.counts.get_mut(&h.addr) {
                Some(count) if *count > 0 => {
                    *count -= 1;
                    true
                }
                _ => false,
            },
            Release::BindingsBuilder(h) => self.bindings.remove(&h.addr).is_some(),
            Release::ListBuilder(h) => self.lists.remove(&h.addr).is_some(),
        };
        assert!(gone, "{:?} was given back but is not live", release);
    }

    fn evaluate(&mut self, expr: &[u8]) -> Option<Slot> {
        match expr {
            b"114514" => Some(Slot::Int(114514)),
            b"1 + 1" => Some(Slot::Int(2)),
            b"\"hello\"" => Some(Slot::Str(b"hello".to_vec())),
            b"{ a = 114; b = 514; }" => {
                let a = self.slot(Slot::Int(114));
                let b = self.slot(Slot::Int(514));
                Some(Slot::Attrs(vec![(b"a".to_vec(), a), (b"b".to_vec(), b)]))
            }
            b"derivation" => {
                let path = self.slot(Slot::Str(b"/nix/store/abc-hello.drv".to_vec()));
                Some(Slot::Attrs(vec![(b"drvPath".to_vec(), path)]))
            }
            b"{ drvPath = 1; }" => {
                let path = self.slot(Slot::Int(1));
                Some(Slot::Attrs(vec![(b"drvPath".to_vec(), path)]))
            }
            _ => None,
        }
    }

    fn kind(&self, value: Handle) -> u32 {
        match self.slots[&value.addr] {
            Slot::Empty | Slot::Apply(..) => 0,
            Slot::Int(_) => 1,
            Slot::Float(_) => 2,
            Slot::Bool(_) => 3,
            Slot::Str(_) => 4,
            Slot::Path(_) => 5,
            Slot::Null => 6,
            Slot::Attrs(_) => 7,
            Slot::List(_) => 8,
        }
    }

    fn child(&mut self, at: usize) -> Handle {
        *self.counts.get_mut(&at).unwrap() += 1;
        Handle { addr: at }
    }

    fn call(&mut self, ctx: usize, function: &Function) -> Reply {
        assert!(self.contexts.contains_key(&ctx), "a call names a context that is not live");
        self.contexts.insert(ctx, (NIX_OK, Vec::new()));
        let null = Handle { addr: 0 };
        match function {
            Function::LibutilInit | Function::LibstoreInit | Function::LibexprInit => Reply::Nothing,
            Function::StoreOpen { uri } => {
                if text(uri) == b"nowhere" {
                    self.fail(ctx, NIX_ERR_NIX_ERROR, "cannot open the store");
                    return Reply::Handle(null);
                }
                let at = self.fresh();
                self.stores.push(at);
                self.opened += 1;
                Reply::Handle(Handle { addr: at })
            }
            Function::StoreParsePath { store, path } => {
                assert!(self.stores.contains(&store.addr));
                let path = text(path);
                if !path.starts_with(b"/nix/store/") {
                    self.fail(ctx, NIX_ERR_NIX_ERROR, "not a store path");
                    return Reply::Handle(null);
                }
                let at = self.fresh();
                self.paths.insert(at, path);
                Reply::Handle(Handle { addr: at })
            }
            Function::StoreRealise { store, path } => {
                assert!(self.stores.contains(&store.addr));
                let drv = self.paths[&path.addr].clone();
                let mut outputs = Outputs::new();
                let out = drv[..drv.len() - 4].to_vec();
                build_cb(&mut outputs, b"out".to_vec(), out).unwrap();
                Reply::Outputs(outputs)
            }
            Function::StateCreate { lookup, store } => {
                assert!(self.stores.contains(&store.addr));
                assert_eq!(lookup.last(), Some(&None));
                let at = self.fresh();
                self.states.push(at);
                Reply::Handle(Handle { addr: at })
            }
            Function::ExprEvalFromString { expr, path, value, .. } => {
                text(path);
                match self.evaluate(&text(expr)) {
                    Some(content) => {
                        self.slots.insert(value.addr, content);
                    }
                    None => self.fail(ctx, NIX_ERR_NIX_ERROR, "syntax error"),
                }
                Reply::Nothing
            }
            Function::AllocValue { .. } => {
                let at = self.slot(Slot::Empty);
                Reply::Handle(self.child(at))
            }
            Function::GetType { value } => Reply::Kind(self.kind(*value)),
            Function::ValueForce { .. } | Function::ValueForceDeep { .. } => Reply::Nothing,
            Function::InitApply { value, function, argument } => {
                self.slots.insert(value.addr, Slot::Apply(function.addr, argument.addr));
                Reply::Nothing
            }
            Function::InitInt { value, int } => {
                self.slots.insert(value.addr, Slot::Int(*int));
                Reply::Nothing
            }
            Function::InitFloat { value, bits } => {
                self.slots.insert(value.addr, Slot::Float(*bits));
                Reply::Nothing
            }
            Function::InitBool { value, boolean } => {
                self.slots.insert(value.addr, Slot::Bool(*boolean));
                Reply::Nothing
            }
            Function::InitString { value, text: bytes } => {
                self.slots.insert(value.addr, Slot::Str(text(bytes)));
                Reply::Nothing
            }
            Function::InitPathString { value, text: bytes, .. } => {
                self.slots.insert(value.addr, Slot::Path(text(bytes)));
                Reply::Nothing
            }
            Function::InitNull { value } => {
                self.slots.insert(value.addr, Slot::Null);
                Reply::Nothing
            }
            Function::MakeBindingsBuilder { .. } => {
                let at = self.fresh();
                self.bindings.insert(at, Vec::new());
                Reply::Handle(Handle { addr: at })
            }
            Function::BindingsBuilderInsert { builder, name, value } => {
                let name = text(name);
                if name == b"refused" {
                    self.fail(ctx, NIX_ERR_NIX_ERROR, "the builder is full");
                } else {
                    self.bindings.get_mut(&builder.addr).unwrap().push((name, value.addr));
                }
                Reply::Nothing
            }
            Function::MakeAttrs { value, builder } => {
                let mut entries = self.bindings[&builder.addr].clone();
                entries.sort();
                self.slots.insert(value.addr, Slot::Attrs(entries));
                Reply::Nothing
            }
            Function::MakeListBuilder { .. } => {
                let at = self.fresh();
                self.lists.insert(at, Vec::new());
                Reply::Handle(Handle { addr: at })
            }
            Function::ListBuilderInsert { builder, index, value } => {
                let items = self.lists.get_mut(&builder.addr).unwrap();
                assert_eq!(*index as usize, items.len(), "items come in order");
                items.push(value.addr);
                Reply::Nothing
            }
            Function::MakeList { builder, value } => {
                let items = self.lists[&builder.addr].clone();
                self.slots.insert(value.addr, Slot::List(items));
                Reply::Nothing
            }
            Function::GetInt { value } => match self.slots[&value.addr] {
                Slot::Int(n) => Reply::Int(n),
                _ => {
                    self.fail(ctx, NIX_ERR_NIX_ERROR, "not an integer");
                    Reply::Int(0)
                }
            },
            Function::GetFloat { value } => match self.slots[&value.addr] {
                Slot::Float(bits) => Reply::Bits(bits),
                _ => {
                    self.fail(ctx, NIX_ERR_NIX_ERROR, "not a float");
                    Reply::Bits(0)
                }
            },
            Function::GetBool { value } => match self.slots[&value.addr] {
                Slot::Bool(b) => Reply::Bool(b),
                _ => {
                    self.fail(ctx, NIX_ERR_NIX_ERROR, "not a boolean");
                    Reply::Bool(false)
                }
            },
            Function::GetString { value } => match self.slots[&value.addr].clone() {
                Slot::Str(bytes) => {
                    let mut buffer = Vec::new();
                    for chunk in bytes.chunks(3) {
                        get_string_cb(chunk, &mut buffer);
                    }
                    Reply::Bytes(buffer)
                }
                _ => {
                    self.fail(ctx, NIX_ERR_NIX_ERROR, "not a string");
                    Reply::Bytes(Vec::new())
                }
            },
            Function::GetPathString { value } => match self.slots[&value.addr].clone() {
                Slot::Path(bytes) => Reply::Handle(self.string(bytes)),
                _ => {
                    self.fail(ctx, NIX_ERR_NIX_ERROR, "not a path");
                    Reply::Handle(null)
                }
            },
            Function::GetAttrsSize { value } => match &self.slots[&value.addr] {
                Slot::Attrs(entries) => Reply::Size(entries.len() as u32),
                _ => {
                    self.fail(ctx, NIX_ERR_NIX_ERROR, "not an attribute set");
                    Reply::Size(0)
                }
            },
            Function::GetAttrByName { value, name, .. } => {
                let name = text(name);
                let found = match &self.slots[&value.addr] {
                    Slot::Attrs(entries) => entries.iter().find(|e| e.0 == name).map(|e| e.1),
                    _ => None,
                };
                match found {
                    Some(at) => Reply::Handle(self.child(at)),
                    None => {
                        self.fail(ctx, NIX_ERR_KEY, "missing attribute");
                        Reply::Handle(null)
                    }
                }
            }
            Function::GetAttrByIdx { value, index, .. } => {
                let found = match &self.slots[&value.addr] {
                    Slot::Attrs(entries) => entries.get(*index as usize).cloned(),
                    _ => None,
                };
                match found {
                    Some((name, at)) => {
                        let name = self.string(name);
                        Reply::Named { name, value: self.child(at) }
                    }
                    None => {
                        self.fail(ctx, NIX_ERR_KEY, "index out of bounds");
                        Reply::Named { name: null, value: null }
                    }
                }
            }
            Function::GetListSize { value } => match &self.slots[&value.addr] {
                Slot::List(items) => Reply::Size(items.len() as u32),
                _ => {
                    self.fail(ctx, NIX_ERR_NIX_ERROR, "not a list");
                    Reply::Size(0)
                }
            },
            Function::GetListByIdx { value, index, .. } => {
                let found = match &self.slots[&value.addr] {
                    Slot::List(items) => items.get(*index as usize).copied(),
                    _ => None,
                };
                match found {
                    Some(at) => Reply::Handle(self.child(at)),
                    None => {
                        self.fail(ctx, NIX_ERR_KEY, "index out of bounds");
                        Reply::Handle(null)
                    }
                }
            }
        }
    }

    fn perform(&mut self, call: &Call) -> Reply {
        self.calls += 1;
        match call {
            Call::ContextCreate => {
                let at = self.fresh();
                self.contexts.insert(at, (NIX_OK, Vec::new()));
                Reply::Handle(Handle { addr: at })
            }
            Call::ErrCode { ctx } => Reply::Code(self.contexts[&ctx.addr].0),
            Call::ErrMsg { ctx } => Reply::Bytes(self.contexts[&ctx.addr].1.clone()),
            Call::ReadCStr { ptr } => Reply::Bytes(self.strings[&ptr.addr].clone()),
            Call::StorePathName { path } => {
                let whole = self.paths[&path.addr].clone();
                let dash = whole.iter().position(|b| *b == b'-').unwrap();
                let mut buffer = Vec::new();
                get_string_cb(&whole[dash + 1..], &mut buffer);
                Reply::Bytes(buffer)
            }
            Call::Release(release) => {
                self.release(*release);
                Reply::Nothing
            }
            Call::Checked { ctx, function } => self.call(ctx.addr, function),
        }
    }

    /// Drives an operation to its end.
    fn run(&mut self, start: Step) -> Result<Output, Error> {
        let engine = RefCell::new(self);
        run(start, |call: &Call| {
            let reply = engine.borrow_mut().perform(call);
            assert!(reply.fits(call));
            reply
        })
    }

    fn store(&mut self) -> Store {
        match self.run(Store::new("daemon")) {
            Ok(Output::Store(store)) => store,
            other => panic!("no store: {:?}", other),
        }
    }

    fn state(&mut self) -> State {
        let store = self.store();
        match self.run(State::new(store)) {
            Ok(Output::State(state)) => state,
            other => panic!("no state: {:?}", other),
        }
    }

    fn value(&mut self, step: Step) -> Value {
        match self.run(step) {
            Ok(Output::Value(value)) => value,
            other => panic!("no value: {:?}", other),
        }
    }

    fn integer(&mut self, state: &State, n: i64) -> Value {
        let value = self.value(Value::new(state));
        assert_eq!(self.run(value.init_int(n)), Ok(Output::Nothing));
        value
    }

    fn drop_value(&mut self, value: Value) {
        assert_eq!(self.run(value.release()), Ok(Output::Nothing));
    }

    fn drop_state(&mut self, state: State) {
        assert_eq!(self.run(state.release()), Ok(Output::Nothing));
    }
}

#[test]
fn init_succeeds_and_leaves_nothing_behind() {
    let mut engine = Engine::new();
    assert_eq!(engine.run(init()), Ok(Output::Nothing));
    assert_eq!(engine.live(), 0);
}

#[test]
fn a_store_that_is_opened_and_closed_at_once_leaves_nothing_behind() {
    let mut engine = Engine::new();
    for _ in 0..100 {
        let store = engine.store();
        assert_eq!(engine.live(), 1);
        assert_eq!(engine.run(store.release()), Ok(Output::Nothing));
        assert_eq!(engine.live(), 0);
    }
    assert_eq!(engine.opened, 100);
    assert_eq!(engine.closed, 100);
}

#[test]
fn a_store_that_cannot_be_opened_leaves_nothing_behind() {
    let mut engine = Engine::new();
    assert_eq!(
        engine.run(Store::new("nowhere")),
        Err(Error::NixErrorNixError("cannot open the store".to_string()))
    );
    assert_eq!(engine.live(), 0);
    assert_eq!(engine.closed, 0);
}

#[test]
fn the_literal_114514_evaluates_to_that_integer() {
    let mut engine = Engine::new();
    let state = engine.state();
    let value = engine.value(state.eval("114514"));
    assert_eq!(engine.run(value.get_type()), Ok(Output::Kind(ValueType::Int)));
    assert_eq!(engine.run(value.as_int()), Ok(Output::Int(114514)));
    engine.drop_value(value);
    engine.drop_state(state);
    assert_eq!(engine.live(), 0);
}

#[test]
fn an_attribute_set_of_two_counts_two() {
    let mut engine = Engine::new();
    let state = engine.state();
    let value = engine.value(state.eval("{ a = 114; b = 514; }"));
    assert_eq!(engine.run(value.get_type()), Ok(Output::Kind(ValueType::Attrs)));
    assert_eq!(engine.run(value.attrs_len()), Ok(Output::Size(2)));
    let b = engine.value(value.attrs_get(&state, "b"));
    assert_eq!(engine.run(b.as_int()), Ok(Output::Int(514)));
    match engine.run(value.attrs_get_byid(&state, 0)) {
        Ok(Output::Attr(name, a)) => {
            assert_eq!(name, "a");
            assert_eq!(engine.run(a.as_int()), Ok(Output::Int(114)));
            engine.drop_value(a);
        }
        other => panic!("no attribute: {:?}", other),
    }
    engine.drop_value(b);
    engine.drop_value(value);
    engine.drop_state(state);
    assert_eq!(engine.live(), 0);
}

#[test]
fn one_plus_one_evaluates_to_two() {
    let mut engine = Engine::new();
    let state = engine.state();
    let value = engine.value(state.eval("1 + 1"));
    assert_eq!(engine.run(value.get_type()), Ok(Output::Kind(ValueType::Int)));
    assert_eq!(engine.run(value.as_int()), Ok(Output::Int(2)));
}

#[test]
fn an_expression_that_does_not_evaluate_leaves_nothing_behind() {
    let mut engine = Engine::new();
    let state = engine.state();
    let before = engine.live();
    assert_eq!(
        engine.run(state.eval("1 +")),
        Err(Error::NixErrorNixError("syntax error".to_string()))
    );
    assert_eq!(engine.live(), before);
}

#[test]
fn build_of_what_is_no_attribute_set_is_no_derivation() {
    let mut engine = Engine::new();
    let state = engine.state();
    for expr in ["114514", "\"hello\""] {
        let value = engine.value(state.eval(expr));
        let before = engine.live();
        assert_eq!(engine.run(state.build(&value)), Err(Error::NotDerivation));
        assert_eq!(engine.live(), before);
    }
    let fresh = engine.value(Value::new(&state));
    assert_eq!(engine.run(state.build(&fresh)), Err(Error::NotDerivation));
}

#[test]
fn build_of_a_set_without_a_drv_path_is_no_derivation() {
    let mut engine = Engine::new();
    let state = engine.state();
    let value = engine.value(state.eval("{ a = 114; b = 514; }"));
    let before = engine.live();
    assert_eq!(engine.run(state.build(&value)), Err(Error::NotDerivation));
    assert_eq!(engine.live(), before);
}

#[test]
fn build_of_a_set_whose_drv_path_is_no_string_is_no_derivation() {
    let mut engine = Engine::new();
    let state = engine.state();
    let value = engine.value(state.eval("{ drvPath = 1; }"));
    let before = engine.live();
    assert_eq!(engine.run(state.build(&value)), Err(Error::NotDerivation));
    assert_eq!(engine.live(), before);
}

#[test]
fn build_of_a_derivation_gives_its_outputs() {
    let mut engine = Engine::new();
    let state = engine.state();
    let value = engine.value(state.eval("derivation"));
    let before = engine.live();
    match engine.run(state.build(&value)) {
        Ok(Output::Outputs(outputs)) => {
            assert_eq!(outputs.get("out"), Some(&"/nix/store/abc-hello".to_string()));
            assert_eq!(outputs.entries.len(), 1);
        }
        other => panic!("no outputs: {:?}", other),
    }
    assert_eq!(engine.live(), before);
}

#[test]
fn an_integer_comes_back_as_it_went_in() {
    let mut engine = Engine::new();
    let state = engine.state();
    for n in [0, 1, -1, 7, -114514, i64::MAX, i64::MIN] {
        let value = engine.integer(&state, n);
        assert_eq!(engine.run(value.as_int()), Ok(Output::Int(n)));
        engine.drop_value(value);
    }
    engine.drop_state(state);
    assert_eq!(engine.live(), 0);
}

#[test]
fn the_other_scalars_come_back_as_they_went_in() {
    let mut engine = Engine::new();
    let state = engine.state();
    let value = engine.value(Value::new(&state));
    assert_eq!(engine.run(value.get_type()), Ok(Output::Kind(ValueType::Thunk)));
    assert_eq!(engine.run(value.init_bool(true)), Ok(Output::Nothing));
    assert_eq!(engine.run(value.bool()), Ok(Output::Bool(true)));
    assert_eq!(engine.run(value.init_float((-0.5f64).to_bits())), Ok(Output::Nothing));
    match engine.run(value.float()) {
        Ok(Output::Float(bits)) => assert_eq!(f64::from_bits(bits), -0.5),
        other => panic!("no float: {:?}", other),
    }
    assert_eq!(engine.run(value.init_string("héllo wörld")), Ok(Output::Nothing));
    assert_eq!(engine.run(value.string()), Ok(Output::Text("héllo wörld".to_string())));
    assert_eq!(engine.run(value.init_path(&state, "/etc/nixos")), Ok(Output::Nothing));
    assert_eq!(engine.run(value.path()), Ok(Output::Text("/etc/nixos".to_string())));
    assert_eq!(engine.run(value.init_null()), Ok(Output::Nothing));
    assert_eq!(engine.run(value.get_type()), Ok(Output::Kind(ValueType::Null)));
    assert_eq!(
        engine.run(value.as_int()),
        Err(Error::NixErrorNixError("not an integer".to_string()))
    );
}

#[test]
fn an_attribute_set_of_one_gives_its_attribute_back() {
    let mut engine = Engine::new();
    let state = engine.state();
    let seven = engine.integer(&state, 7);
    let set = engine.value(Value::new(&state));
    assert_eq!(
        engine.run(set.init_attrs(&state, vec![("x".to_string(), &seven)])),
        Ok(Output::Nothing)
    );
    assert_eq!(engine.run(set.attrs_len()), Ok(Output::Size(1)));
    let x = engine.value(set.attrs_get(&state, "x"));
    assert_eq!(engine.run(x.as_int()), Ok(Output::Int(7)));
    assert_eq!(
        engine.run(set.attrs_get(&state, "y")),
        Err(Error::NixErrorKey("missing attribute".to_string()))
    );
    engine.drop_value(x);
    engine.drop_value(set);
    engine.drop_value(seven);
    engine.drop_state(state);
    assert_eq!(engine.live(), 0);
}

#[test]
fn an_insert_that_the_engine_refuses_leaves_no_builder_behind() {
    let mut engine = Engine::new();
    let state = engine.state();
    let seven = engine.integer(&state, 7);
    let set = engine.value(Value::new(&state));
    let before = engine.live();
    assert_eq!(
        engine.run(set.init_attrs(
            &state,
            vec![("x".to_string(), &seven), ("refused".to_string(), &seven), ("z".to_string(), &seven)]
        )),
        Err(Error::NixErrorNixError("the builder is full".to_string()))
    );
    assert_eq!(engine.live(), before);
    assert_eq!(
        engine.run(set.init_attrs(&state, vec![("x".to_string(), &seven), ("a\0b".to_string(), &seven)])),
        Err(Error::UnknownError)
    );
    assert_eq!(engine.live(), before);
}

#[test]
fn a_list_of_three_gives_its_elements_back_in_order() {
    let mut engine = Engine::new();
    let state = engine.state();
    let items = [engine.integer(&state, 10), engine.integer(&state, -20), engine.integer(&state, 30)];
    let list = engine.value(Value::new(&state));
    assert_eq!(
        engine.run(list.init_list(&state, &[&items[0], &items[1], &items[2]])),
        Ok(Output::Nothing)
    );
    assert_eq!(engine.run(list.get_type()), Ok(Output::Kind(ValueType::List)));
    assert_eq!(engine.run(list.list_len()), Ok(Output::Size(3)));
    for (i, expected) in [10, -20, 30].into_iter().enumerate() {
        let item = engine.value(list.list_get(&state, i));
        assert_eq!(engine.run(item.as_int()), Ok(Output::Int(expected)));
        engine.drop_value(item);
    }
    assert_eq!(
        engine.run(list.list_get(&state, 3)),
        Err(Error::NixErrorKey("index out of bounds".to_string()))
    );
    for item in items {
        engine.drop_value(item);
    }
    engine.drop_value(list);
    engine.drop_state(state);
    assert_eq!(engine.live(), 0);
}

#[test]
fn a_string_with_a_nul_never_reaches_the_engine() {
    let mut engine = Engine::new();
    let state = engine.state();
    let value = engine.value(Value::new(&state));
    let before = engine.calls;
    assert_eq!(engine.run(value.init_string("he\0llo")), Err(Error::UnknownError));
    assert_eq!(engine.calls, before);
    assert_eq!(engine.run(Store::new("\0")), Err(Error::UnknownError));
    assert_eq!(engine.run(state.eval("\0")), Err(Error::UnknownError));
    assert_eq!(engine.run(state.store_path("/nix/store/\0")), Err(Error::UnknownError));
    assert_eq!(engine.calls, before);
}

#[test]
fn a_store_path_tells_its_name() {
    let mut engine = Engine::new();
    let state = engine.state();
    let path = match engine.run(state.store_path("/nix/store/abc-hello-2.12")) {
        Ok(Output::StorePath(path)) => path,
        other => panic!("no path: {:?}", other),
    };
    assert_eq!(engine.run(path.name()), Ok(Output::Text("hello-2.12".to_string())));
    assert_eq!(engine.run(path.release()), Ok(Output::Nothing));
    assert_eq!(
        engine.run(StorePath::new(&state.store, "/tmp/x")),
        Err(Error::NixErrorNixError("not a store path".to_string()))
    );
    engine.drop_state(state);
    assert_eq!(engine.live(), 0);
}

#[test]
fn a_state_that_fails_on_its_paths_closes_the_store_it_took() {
    let mut engine = Engine::new();
    let store = engine.store();
    assert_eq!(engine.run(State::new_with_paths(store, &["a\0"])), Err(Error::UnknownError));
    assert_eq!(engine.live(), 0);
    assert_eq!(engine.closed, 1);
}

#[test]
fn a_thunk_keeps_what_it_applies() {
    let mut engine = Engine::new();
    let state = engine.state();
    let f = engine.integer(&state, 1);
    let arg = engine.integer(&state, 2);
    let thunk = engine.value(Value::new(&state));
    assert_eq!(engine.run(thunk.init_thunk(&f, &arg)), Ok(Output::Nothing));
    assert_eq!(engine.slots[&thunk.value.addr], Slot::Apply(f.value.addr, arg.value.addr));
    assert_eq!(engine.run(thunk.force(&state)), Ok(Output::Nothing));
    assert_eq!(engine.run(thunk.force_deep(&state)), Ok(Output::Nothing));
}

#[test]
fn a_value_and_a_path_outlive_the_state_they_came_from() {
    let mut engine = Engine::new();
    let state = engine.state();
    let value = engine.value(state.eval("114514"));
    let path = match engine.run(state.store_path("/nix/store/abc-hello")) {
        Ok(Output::StorePath(path)) => path,
        other => panic!("no path: {:?}", other),
    };
    engine.drop_state(state);
    assert_eq!(engine.live(), 3);
    assert_eq!(engine.run(value.as_int()), Ok(Output::Int(114514)));
    assert_eq!(engine.run(path.name()), Ok(Output::Text("hello".to_string())));
    engine.drop_value(value);
    assert_eq!(engine.run(path.release()), Ok(Output::Nothing));
    assert_eq!(engine.live(), 0);
    assert_eq!(engine.opened, 1);
    assert_eq!(engine.closed, 1);
}
