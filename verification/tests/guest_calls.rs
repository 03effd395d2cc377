//! A host calling guest functions end to end over one guest memory: the
//! call steps drive the exchange, the guest's side and the host functions
//! it calls use the library's memory handling, and values are encoded as
//! on the wire.

use holochain_wasmer::call::{step, CallAction, CallEvent, CallState, GuestFailure};
use holochain_wasmer::env::{Env, Value};
use holochain_wasmer::guest::{host_call_input, host_call_output, return_ptr};
use holochain_wasmer::guest_allocation::{__allocate, __deallocate, consume_bytes};
use holochain_wasmer::host_error::RuntimeError;
use holochain_wasmer::host_guest::{read_bytes, write_bytes};
use holochain_wasmer::linear_memory::LinearMemory;
use holochain_wasmer::numeric::{merge_u32, split_u64, split_usize};
use holochain_wasmer::payloads::SomeStruct;
use holochain_wasmer::result::{WasmError, WasmErrorInner};
use serde::de::DeserializeOwned;
use serde::Serialize;
use std::collections::BTreeMap;

type GuestFn = fn(&mut Env, usize, usize) -> Result<u64, GuestFailure>;
type HostFn = fn(&mut Env, u32, u32) -> Result<u64, GuestFailure>;

fn memory(env: &mut Env) -> &mut LinearMemory {
    env.memory.as_mut().unwrap()
}

/// The guest's packed pointer and length, as a wasm32 guest returns them.
fn wasm32_packed(packed: u128) -> u64 {
    let (ptr, len) = split_usize(packed).unwrap();
    merge_u32(ptr as u32, len as u32).unwrap()
}

fn host_args<O: DeserializeOwned + std::fmt::Debug>(env: &mut Env, ptr: usize, len: usize) -> O {
    let bytes = consume_bytes(memory(env), ptr, len);
    holochain_serialized_bytes::decode(&bytes).unwrap()
}

fn return_ok<R: Serialize + std::fmt::Debug>(env: &mut Env, value: R) -> u64 {
    let bytes = holochain_serialized_bytes::encode(&Ok::<R, ()>(value)).unwrap();
    wasm32_packed(return_ptr(memory(env), bytes))
}

fn host_call<I, O>(env: &mut Env, f: HostFn, input: I) -> Result<O, GuestFailure>
where
    I: Serialize + std::fmt::Debug,
    O: DeserializeOwned + std::fmt::Debug,
{
    let input_bytes = holochain_serialized_bytes::encode(&input).unwrap();
    let (ptr, len) = host_call_input(memory(env), input_bytes);
    let returned = f(env, ptr as u32, len as u32)?;
    let (out_ptr, out_len) = split_u64(returned).unwrap();
    let bytes = host_call_output(memory(env), ((out_ptr as u128) << usize::BITS) | out_len as u128).unwrap();
    let output: Result<O, ()> = holochain_serialized_bytes::decode(&bytes).unwrap();
    Ok(output.unwrap())
}

fn raised(e: RuntimeError) -> GuestFailure {
    match e {
        RuntimeError::User(w) => GuestFailure::Raised(w),
        other => GuestFailure::Trapped(format!("{:?}", other)),
    }
}

fn call<I, O>(env: &mut Env, f: GuestFn, input: I) -> Result<O, CallAction>
where
    I: Serialize + std::fmt::Debug,
    O: DeserializeOwned + std::fmt::Debug,
{
    let payload = holochain_serialized_bytes::encode(&input).unwrap();
    let mut state = CallState::Start;
    let mut event = CallEvent::Begin { payload };
    let mut output: Option<Result<O, WasmError>> = None;
    loop {
        let (next, action) = step(state, event);
        state = next;
        event = match action {
            CallAction::Allocate { len } => {
                let ptr = __allocate(memory(env), len as usize);
                CallEvent::Allocated(Ok(Some(Value::I32(ptr as i32))))
            }
            CallAction::WriteInput { ptr, bytes } => CallEvent::Written(write_bytes(memory(env), ptr, &bytes)),
            CallAction::FindDeallocator => CallEvent::DeallocatorFound(Ok(())),
            CallAction::CallGuest { ptr, len } => CallEvent::Returned(
                f(env, ptr as usize, len as usize).map(|packed| Some(Value::I64(packed as i64))),
            ),
            CallAction::ReadOutput { ptr, len } => {
                let bytes = read_bytes(memory(env), ptr, len).unwrap();
                // a guest's error crosses as its file, line and message
                let decoded: Result<O, (String, u32, String)> = holochain_serialized_bytes::decode(&bytes).unwrap();
                output = Some(decoded.map_err(|(file, line, message)| {
                    WasmError::new(file, line, WasmErrorInner::Guest(message))
                }));
                CallEvent::Read(Ok(()))
            }
            CallAction::Deallocate { ptr, len } => {
                __deallocate(memory(env), ptr as usize, len as usize);
                CallEvent::Deallocated(Ok(()))
            }
            CallAction::DecodeShortCircuit(encoded) => {
                return Ok(holochain_serialized_bytes::decode(&encoded).unwrap());
            }
            CallAction::Finish => {
                return output.unwrap().map_err(|e| CallAction::Fail(RuntimeError::User(e)));
            }
            fail => return Err(fail),
        };
    }
}

fn instance() -> Env {
    let mut env = Env::new();
    env.memory = Some(LinearMemory::with_pages(1));
    env
}

// Host functions the guests call.

fn test_process_string(env: &mut Env, guest_ptr: u32, len: u32) -> Result<u64, GuestFailure> {
    let bytes = env.consume_bytes_from_guest(guest_ptr, len).map_err(raised)?;
    let string: String = holochain_serialized_bytes::decode(&bytes).unwrap();
    let processed_string = format!("host: {}", string);
    let data = holochain_serialized_bytes::encode(&Ok::<String, ()>(processed_string)).unwrap();
    env.move_data_to_guest(&data).map_err(raised)
}

fn test_process_struct(env: &mut Env, guest_ptr: u32, len: u32) -> Result<u64, GuestFailure> {
    let bytes = env.consume_bytes_from_guest(guest_ptr, len).map_err(raised)?;
    let fields: BTreeMap<String, String> = holochain_serialized_bytes::decode(&bytes).unwrap();
    let mut some_struct = SomeStruct::new(fields["inner"].clone());
    some_struct.process();
    let data = holochain_serialized_bytes::encode(&Ok::<BTreeMap<&str, String>, ()>(struct_fields(&some_struct))).unwrap();
    env.move_data_to_guest(&data).map_err(raised)
}

fn short_circuit_host(_env: &mut Env, _: u32, _: u32) -> Result<u64, GuestFailure> {
    Err(GuestFailure::Raised(WasmError::new(
        "src/test.rs".into(),
        9,
        WasmErrorInner::HostShortCircuit(holochain_serialized_bytes::encode(&String::from("shorts")).unwrap()),
    )))
}

/// `SomeStruct` as it is encoded: a map of its one field.
fn struct_fields(s: &SomeStruct) -> BTreeMap<&'static str, String> {
    let debug = format!("{:?}", s);
    let inner = debug.trim_start_matches("SomeStruct { inner: \"").trim_end_matches("\" }").to_string();
    BTreeMap::from([("inner", inner)])
}

/// What a guest's `return_err_ptr` hands the host.
fn return_err(env: &mut Env, file: &str, line: u32, message: String) -> u64 {
    let bytes = holochain_serialized_bytes::encode(&Err::<(), (String, u32, String)>((file.into(), line, message))).unwrap();
    wasm32_packed(return_ptr(memory(env), bytes))
}

// Guest functions.

fn some_ret_guest(env: &mut Env, guest_ptr: usize, len: usize) -> Result<u64, GuestFailure> {
    let _: () = host_args(env, guest_ptr, len);
    Ok(return_ok(env, struct_fields(&SomeStruct::new("foo".into()))))
}

fn some_ret_err_guest(env: &mut Env, guest_ptr: usize, len: usize) -> Result<u64, GuestFailure> {
    let _: () = host_args(env, guest_ptr, len);
    Ok(return_err(env, "src/wasm.rs", 101, "oh no!".into()))
}

fn try_ptr_succeeds_guest(env: &mut Env, guest_ptr: usize, len: usize) -> Result<u64, GuestFailure> {
    let _: () = host_args(env, guest_ptr, len);
    let ok: Result<SomeStruct, ()> = Ok(SomeStruct::new("foo".into()));
    let result = match ok {
        Ok(v) => Ok::<_, ()>(struct_fields(&v)),
        Err(e) => return Ok(return_err(env, "src/wasm.rs", 117, format!("{}: {:?}", "this can't fail", e))),
    };
    Ok(return_ok(env, result))
}

fn try_ptr_fails_fast_guest(env: &mut Env, guest_ptr: usize, len: usize) -> Result<u64, GuestFailure> {
    let _: () = host_args(env, guest_ptr, len);
    let failed: Result<(), ()> = Err(());
    match failed {
        Ok(v) => Ok(return_ok(env, v)),
        Err(e) => Ok(return_err(env, "src/wasm.rs", 129, format!("{}: {:?}", "it fails!", e))),
    }
}

fn short_circuit_guest(env: &mut Env, _: usize, _: usize) -> Result<u64, GuestFailure> {
    let _: String = host_call(env, short_circuit_host, ())?;
    Ok(0)
}

fn literal_bytes_guest(env: &mut Env, guest_ptr: usize, len: usize) -> Result<u64, GuestFailure> {
    let bytes: Vec<u8> = host_args(env, guest_ptr, len);
    assert_eq!(bytes, vec![1, 2, 3]);
    Ok(return_ok(env, bytes))
}

fn ignore_args_process_string_guest(env: &mut Env, guest_ptr: usize, len: usize) -> Result<u64, GuestFailure> {
    __deallocate(memory(env), guest_ptr, len);
    let _: String = host_call(env, test_process_string, &String::from("foo"))?;
    Ok(return_ok(env, String::new()))
}

fn process_string_guest(env: &mut Env, guest_ptr: usize, len: usize) -> Result<u64, GuestFailure> {
    let s: String = host_args(env, guest_ptr, len);
    let s: String = format!("guest: {}", s);
    let s: String = host_call(env, test_process_string, &s)?;
    Ok(return_ok(env, s))
}

fn process_native_guest(env: &mut Env, guest_ptr: usize, len: usize) -> Result<u64, GuestFailure> {
    let input: BTreeMap<String, String> = host_args(env, guest_ptr, len);
    let processed: BTreeMap<String, String> = host_call(env, test_process_struct, &input)?;
    Ok(return_ok(env, processed))
}

fn stacked_strings_guest(env: &mut Env, guest_ptr: usize, len: usize) -> Result<u64, GuestFailure> {
    let _: () = host_args(env, guest_ptr, len);
    let first = "first";
    let _second = "second";
    Ok(return_ok(env, String::from(first)))
}

fn native_type_guest(env: &mut Env, guest_ptr: usize, len: usize) -> Result<u64, GuestFailure> {
    let input: BTreeMap<String, String> = host_args(env, guest_ptr, len);
    Ok(return_ok(env, input))
}

#[test]
fn short_circuit() {
    let mut env = instance();
    let result: String = call(&mut env, short_circuit_guest, ()).unwrap();
    assert_eq!(result, String::from("shorts"));
}

#[test]
fn stacked_test() {
    let mut env = instance();
    let result: String = call(&mut env, stacked_strings_guest, ()).expect("stacked strings call");
    assert_eq!("first", &result);
}

#[test]
fn literal_bytes() {
    let input: Vec<u8> = vec![1, 2, 3];
    let mut env = instance();
    let result: Vec<u8> = call(&mut env, literal_bytes_guest, input.clone()).expect("literal_bytes call");
    assert_eq!(input, result);
}

#[test]
fn ignore_args_process_string_test() {
    let mut env = instance();
    let result: String =
        call(&mut env, ignore_args_process_string_guest, &String::new()).expect("ignore_args_process_string call");
    assert_eq!(String::new(), result);
}

#[test]
fn process_string_test() {
    // a string much longer than a single wasm page, to show that growing the
    // memory and utf-8 both work
    let starter_string = "╰▐ ✖ 〜 ✖ ▐╯".repeat(usize::try_from(10_u32 * u32::from(u16::MAX)).unwrap());
    let mut env = instance();
    let result: String = call(&mut env, process_string_guest, &starter_string).expect("process string call");

    let expected_string = format!("host: guest: {}", &starter_string);

    assert_eq!(&result, &expected_string,);
}

#[test]
fn native_test() {
    let some_struct = SomeStruct::new("foo".into());
    let mut env = instance();
    let result: BTreeMap<String, String> =
        call(&mut env, native_type_guest, struct_fields(&some_struct)).expect("native type handling");
    assert_eq!(SomeStruct::new(result["inner"].clone()), some_struct);
}

#[test]
fn native_struct_test() {
    let some_struct = SomeStruct::new("foo".into());
    let mut env = instance();
    let result: BTreeMap<String, String> = call(&mut env, process_native_guest, struct_fields(&some_struct)).unwrap();
    let expected = SomeStruct::new(format!("processed: {}", "foo"));
    assert_eq!(SomeStruct::new(result["inner"].clone()), expected);
}

#[test]
fn ret_test() {
    let mut env = instance();
    let some_struct: BTreeMap<String, String> = call(&mut env, some_ret_guest, ()).unwrap();
    assert_eq!(SomeStruct::new(some_struct["inner"].clone()), SomeStruct::new("foo".into()));

    let mut env = instance();
    let err: Result<BTreeMap<String, String>, CallAction> = call(&mut env, some_ret_err_guest, ());
    match err {
        Err(CallAction::Fail(RuntimeError::User(e))) => assert_eq!(
            WasmError { file: "src/wasm.rs".into(), line: 101, error: WasmErrorInner::Guest("oh no!".into()) },
            e
        ),
        _ => unreachable!(),
    };
}

#[test]
fn try_ptr_test() {
    let mut env = instance();
    let success_result: Result<BTreeMap<String, String>, ()> = call(&mut env, try_ptr_succeeds_guest, ()).unwrap();
    assert_eq!(SomeStruct::new(success_result.unwrap()["inner"].clone()), SomeStruct::new("foo".into()));

    let mut env = instance();
    let fail_result: Result<(), CallAction> = call(&mut env, try_ptr_fails_fast_guest, ());
    match fail_result {
        Err(CallAction::Fail(RuntimeError::User(e))) => assert_eq!(
            WasmError { file: "src/wasm.rs".into(), line: 129, error: WasmErrorInner::Guest("it fails!: ()".into()) },
            e
        ),
        _ => unreachable!(),
    };
}
