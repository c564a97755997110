//! The wire dialect spoken to the tool process: one JSON-RPC document
//! per line. Requests are framed here byte for byte; the decoder's
//! contract is the round-trip law, so a framed request decodes back
//! to exactly its parts.

use vstd::prelude::*;
use vstd::string::StringSliceAdditionalSpecFns;

verus! {

/// The ghost shape of one request: its method, its raw params text if
/// any, and its id.
#[verifier::ext_equal]
pub struct ReqModel {
    pub method: Seq<u8>,
    pub params: Option<Seq<u8>>,
    pub id: u64,
}

/// One protocol request. `params`, when present, is the raw JSON text
/// of the parameter document.
pub struct JsonRpcRequest {
    pub method: Vec<u8>,
    pub params: Option<Vec<u8>>,
    pub id: u64,
}

impl View for JsonRpcRequest {
    type V = ReqModel;

    open spec fn view(&self) -> ReqModel {
        ReqModel {
            method: self.method@,
            params: match self.params {
                Some(p) => Some(p@),
                None => None,
            },
            id: self.id,
        }
    }
}

impl JsonRpcRequest {
    /// Gathers the parts of one request.
    pub fn new(method: Vec<u8>, params: Option<Vec<u8>>, id: u64) -> (r: JsonRpcRequest)
        ensures
            r.method == method,
            r.params == params,
            r.id == id,
    {
        JsonRpcRequest { method, params, id }
    }
}

/// The frame up to the opening quote of the method name.
pub open spec fn prefix_bytes() -> Seq<u8> {
    "{\"jsonrpc\":\"2.0\",\"method\":\"".spec_bytes()
}

/// The quote that closes the method name.
pub open spec fn quote_byte() -> Seq<u8> {
    seq![34u8]
}

/// The frame that introduces the params document.
pub open spec fn params_frame() -> Seq<u8> {
    seq![44u8, 34u8, 112u8, 97u8, 114u8, 97u8, 109u8, 115u8, 34u8, 58u8]
}

/// The frame that introduces the id.
pub open spec fn id_frame() -> Seq<u8> {
    seq![44u8, 34u8, 105u8, 100u8, 34u8, 58u8]
}

/// The closing brace of the document.
pub open spec fn close_byte() -> Seq<u8> {
    seq![125u8]
}

/// The decimal digit bytes of `n`, most significant first.
pub open spec fn dec_bytes(n: nat) -> Seq<u8>
    decreases n,
{
    if n < 10 {
        seq![(48 + n) as u8]
    } else {
        dec_bytes(n / 10) + seq![(48 + n % 10) as u8]
    }
}

/// A method name the framing can carry losslessly: no quote byte.
pub open spec fn wf_method(m: Seq<u8>) -> bool {
    forall|i: int| 0 <= i < m.len() ==> m[i] != 34u8
}

/// The full line for a request: fixed frames around the method, the
/// optional raw params text, and the decimal id.
pub open spec fn encode_spec(m: ReqModel) -> Seq<u8> {
    prefix_bytes() + m.method + quote_byte() + (match m.params {
        Some(p) => params_frame() + p,
        None => Seq::<u8>::empty(),
    }) + id_frame() + dec_bytes(m.id as nat) + close_byte()
}

/// Appends `s` to `v`.
fn push_bytes(v: &mut Vec<u8>, s: &[u8])
    ensures
        final(v)@ =~= old(v)@ + s@,
{
    let n = s.len();
    let mut i: usize = 0;
    while i < n
        invariant
            n == s@.len(),
            i <= n,
            v@ =~= old(v)@ + s@.take(i as int),
        decreases n - i,
    {
        v.push(s[i]);
        proof {
            assert(v@ =~= old(v)@ + s@.take(i + 1));
        }
        i += 1;
    }
    proof {
        assert(s@.take(n as int) =~= s@);
    }
}

/// Appends the bytes of a literal to `v`.
fn push_str_bytes(v: &mut Vec<u8>, s: &str)
    ensures
        final(v)@ =~= old(v)@ + s.spec_bytes(),
{
    push_bytes(v, s.as_bytes());
}

/// The bytes of the decimal rendering of `n`.
pub fn u64_to_dec_bytes(n: u64) -> (out: Vec<u8>)
    ensures
        out@ == dec_bytes(n as nat),
    decreases n,
{
    if n < 10 {
        let mut out: Vec<u8> = Vec::new();
        out.push(48 + (n as u8));
        proof {
            assert(out@ =~= dec_bytes(n as nat));
        }
        out
    } else {
        let mut out = u64_to_dec_bytes(n / 10);
        out.push(48 + ((n % 10) as u8));
        proof {
            assert(out@ =~= dec_bytes((n / 10) as nat) + seq![(48 + (n as nat) % 10) as u8]);
        }
        out
    }
}

/// The method name for the handshake.
pub fn method_initialize() -> (out: Vec<u8>)
    ensures
        out@ == method_initialize_bytes(),
{
    let mut out: Vec<u8> = Vec::new();
    push_str_bytes(&mut out, "initialize");
    proof {
        assert(out@ =~= method_initialize_bytes());
    }
    out
}

/// The bytes of "initialize".
pub open spec fn method_initialize_bytes() -> Seq<u8> {
    "initialize".spec_bytes()
}

/// The method name for tool discovery.
pub fn method_tools_list() -> (out: Vec<u8>)
    ensures
        out@ == method_tools_list_bytes(),
{
    let mut out: Vec<u8> = Vec::new();
    push_str_bytes(&mut out, "tools/list");
    proof {
        assert(out@ =~= method_tools_list_bytes());
    }
    out
}

/// The bytes of "tools/list".
pub open spec fn method_tools_list_bytes() -> Seq<u8> {
    "tools/list".spec_bytes()
}

/// The method name for a tool invocation.
pub fn method_tools_call() -> (out: Vec<u8>)
    ensures
        out@ == method_tools_call_bytes(),
{
    let mut out: Vec<u8> = Vec::new();
    push_str_bytes(&mut out, "tools/call");
    proof {
        assert(out@ =~= method_tools_call_bytes());
    }
    out
}

/// The bytes of "tools/call".
pub open spec fn method_tools_call_bytes() -> Seq<u8> {
    "tools/call".spec_bytes()
}

/// Frames one request as a full line, without the terminating newline
/// (the transport owns that).
pub fn encode_request(req: &JsonRpcRequest) -> (out: Vec<u8>)
    ensures
        out@ == encode_spec(req@),
{
    let mut out: Vec<u8> = Vec::new();
    push_str_bytes(&mut out, "{\"jsonrpc\":\"2.0\",\"method\":\"");
    push_bytes(&mut out, req.method.as_slice());
    out.push(34);
    match &req.params {
        Some(p) => {
            push_params_frame(&mut out);
            push_bytes(&mut out, p.as_slice());
        },
        None => {},
    }
    push_id_frame(&mut out);
    let digits = u64_to_dec_bytes(req.id);
    push_bytes(&mut out, digits.as_slice());
    out.push(125);
    proof {
        assert(out@ =~= encode_spec(req@));
    }
    out
}

/// Appends the frame that introduces the params document.
fn push_params_frame(v: &mut Vec<u8>)
    ensures
        final(v)@ =~= old(v)@ + params_frame(),
{
    v.push(44);
    v.push(34);
    v.push(112);
    v.push(97);
    v.push(114);
    v.push(97);
    v.push(109);
    v.push(115);
    v.push(34);
    v.push(58);
    proof {
        assert(v@ =~= old(v)@ + params_frame());
    }
}

/// A decimal digit byte.
pub open spec fn is_digit(b: u8) -> bool {
    48 <= b <= 57
}

/// One step of decimal accumulation: fails on a non-digit or on
/// overflow.
pub open spec fn dec_step(acc: u64, b: u8) -> Option<u64> {
    if !is_digit(b) {
        None
    } else if (acc as int) * 10 + (b as int) - 48 > u64::MAX as int {
        None
    } else {
        Some((acc * 10 + ((b - 48) as u64)) as u64)
    }
}

/// Folds decimal digits onto `acc`, left to right.
pub open spec fn parse_from(acc: u64, s: Seq<u8>) -> Option<u64>
    decreases s.len(),
{
    if s.len() == 0 {
        Some(acc)
    } else {
        match dec_step(acc, s[0]) {
            Some(v) => parse_from(v, s.drop_first()),
            None => None,
        }
    }
}

/// The value of a nonempty run of decimal digits, if it fits.
pub open spec fn parse_dec(s: Seq<u8>) -> Option<u64> {
    if s.len() == 0 {
        None
    } else {
        parse_from(0, s)
    }
}

/// Every byte of a decimal rendering is a digit, and there is at
/// least one.
pub proof fn lemma_dec_bytes_digits(n: nat)
    ensures
        dec_bytes(n).len() >= 1,
        forall|i: int| 0 <= i < dec_bytes(n).len() ==> is_digit(#[trigger] dec_bytes(n)[i]),
    decreases n,
{
    if n >= 10 {
        lemma_dec_bytes_digits(n / 10);
    }
}

/// Folding over one more digit at the right applies one more step.
proof fn lemma_parse_from_append(acc: u64, s: Seq<u8>, b: u8)
    ensures
        parse_from(acc, s.push(b)) == (match parse_from(acc, s) {
            Some(v) => dec_step(v, b),
            None => None,
        }),
    decreases s.len(),
{
    if s.len() == 0 {
        assert(s.push(b).len() == 1);
        assert(s.push(b)[0] == b);
        assert(s.push(b).drop_first() =~= Seq::<u8>::empty());
        assert(parse_from(acc, s) == Some(acc));
        match dec_step(acc, b) {
            Some(v) => {
                assert(parse_from(acc, s.push(b)) == parse_from(v, s.push(b).drop_first()));
                assert(parse_from(v, s.push(b).drop_first()) == Some(v));
            },
            None => {
                assert(parse_from(acc, s.push(b)) is None);
            },
        }
    } else {
        assert(s.push(b)[0] == s[0]);
        assert(s.push(b).drop_first() =~= s.drop_first().push(b));
        match dec_step(acc, s[0]) {
            Some(v) => {
                lemma_parse_from_append(v, s.drop_first(), b);
            },
            None => {},
        }
    }
}

/// Parsing the decimal rendering of `n` gives back `n`.
pub proof fn lemma_parse_dec_bytes(n: u64)
    ensures
        parse_dec(dec_bytes(n as nat)) == Some(n),
    decreases n,
{
    lemma_dec_bytes_digits(n as nat);
    if n < 10 {
        let s0 = dec_bytes(n as nat);
        assert(s0 =~= seq![(48 + n as nat) as u8]);
        assert(s0.len() == 1 && s0[0] == (48 + n as nat) as u8);
        assert(dec_step(0, s0[0]) == Some(n));
        assert(s0.drop_first() =~= Seq::<u8>::empty());
        assert(parse_from(0, s0) == parse_from(n, s0.drop_first()));
        assert(parse_from(n, s0.drop_first()) == Some(n));
    } else {
        lemma_parse_dec_bytes(n / 10);
        let head = dec_bytes((n / 10) as nat);
        let d = (48 + (n as nat) % 10) as u8;
        assert(dec_bytes(n as nat) =~= head.push(d));
        lemma_parse_from_append(0, head, d);
        vstd::arithmetic::div_mod::lemma_fundamental_div_mod(n as int, 10);
        assert(head.len() >= 1);
        assert(parse_from(0, head) == Some(n / 10 as u64));
        assert(is_digit(d));
        assert((n / 10 as u64) as int * 10 + (d as int) - 48 == n as int);
        assert(dec_step(n / 10, d) == Some(n));
        assert(parse_from(0, head.push(d)) == Some(n));
        assert(parse_from(0, dec_bytes(n as nat)) == Some(n));
    }
}

/// Parses the digits of `s` between `from` and `to`.
fn parse_dec_digits(s: &[u8], from: usize, to: usize) -> (r: Option<u64>)
    requires
        from <= to <= s@.len(),
    ensures
        r == parse_dec(s@.subrange(from as int, to as int)),
{
    if from == to {
        return None;
    }
    let mut acc: u64 = 0;
    let mut i = from;
    while i < to
        invariant
            from <= i <= to <= s@.len(),
            parse_from(0, s@.subrange(from as int, to as int)) == parse_from(
                acc,
                s@.subrange(i as int, to as int),
            ),
        decreases to - i,
    {
        let b = s[i];
        proof {
            assert(s@.subrange(i as int, to as int)[0] == s@[i as int]);
            assert(s@.subrange(i as int, to as int).drop_first() =~= s@.subrange(
                i + 1,
                to as int,
            ));
        }
        if b < 48 || b > 57 {
            return None;
        }
        let m = match acc.checked_mul(10) {
            Some(m) => m,
            None => {
                return None;
            },
        };
        let v = match m.checked_add((b - 48) as u64) {
            Some(v) => v,
            None => {
                return None;
            },
        };
        acc = v;
        i += 1;
    }
    proof {
        assert(s@.subrange(to as int, to as int) =~= Seq::<u8>::empty());
    }
    Some(acc)
}

/// The params part of a frame: ten frame bytes plus the raw text, or
/// nothing.
pub open spec fn params_len(m: ReqModel) -> int {
    match m.params {
        Some(p) => 10 + p.len() as int,
        None => 0,
    }
}

/// Where each part of an encoded request sits, and what it holds.
proof fn lemma_encode_shape(m: ReqModel)
    ensures
        ({
            let e = encode_spec(m);
            let pl = prefix_bytes().len() as int;
            let mlen = m.method.len() as int;
            let qp = pl + mlen;
            let fs = qp + 1 + params_len(m);
            let ds = fs + 6;
            let dlen = dec_bytes(m.id as nat).len() as int;
            &&& e.len() == ds + dlen + 1
            &&& e.subrange(0, pl) == prefix_bytes()
            &&& (forall|j: int| 0 <= j < mlen ==> e[pl + j] == m.method[j])
            &&& e[qp] == 34u8
            &&& (m.params matches Some(p) ==> e.subrange(qp + 1, qp + 11) == params_frame()
                && e.subrange(qp + 11, fs) == p)
            &&& e.subrange(fs, ds) == id_frame()
            &&& e.subrange(ds, ds + dlen) == dec_bytes(m.id as nat)
            &&& e[ds + dlen] == 125u8
        }),
{
    let e = encode_spec(m);
    let pl = prefix_bytes().len() as int;
    let mlen = m.method.len() as int;
    let qp = pl + mlen;
    let fs = qp + 1 + params_len(m);
    let ds = fs + 6;
    let dlen = dec_bytes(m.id as nat).len() as int;
    let mid: Seq<u8> = match m.params {
        Some(p) => params_frame() + p,
        None => Seq::<u8>::empty(),
    };
    assert(e =~= prefix_bytes() + m.method + quote_byte() + mid + id_frame() + dec_bytes(
        m.id as nat,
    ) + close_byte());
    assert(e.subrange(0, pl) =~= prefix_bytes());
    assert(e.subrange(fs, ds) =~= id_frame());
    assert(e.subrange(ds, ds + dlen) =~= dec_bytes(m.id as nat));
    match m.params {
        Some(p) => {
            assert(e.subrange(qp + 1, qp + 11) =~= params_frame());
            assert(e.subrange(qp + 11, fs) =~= p);
        },
        None => {},
    }
}

/// Decodes one framed request line. The contract is the round-trip
/// law: a line framed from any parts with a carryable method decodes
/// back to exactly those parts.
#[verifier::rlimit(100)]
#[verifier::spinoff_prover]
pub fn decode_request(line: &[u8]) -> (r: Option<JsonRpcRequest>)
    ensures
        forall|m: ReqModel|
            wf_method(m.method) && line@ == encode_spec(m) ==> (r matches Some(q) && q@ =~= m),
{
    let pb = "{\"jsonrpc\":\"2.0\",\"method\":\"".as_bytes();
    let pl = pb.len();
    let n = line.len();
    proof {
        assert(pb@ == prefix_bytes());
    }
    if !match_at(line, 0, pb) {
        proof {
            assert forall|m: ReqModel| !(wf_method(m.method) && line@ == encode_spec(
                m,
            )) by {
                if wf_method(m.method) && line@ == encode_spec(m) {
                    lemma_encode_shape(m);
                }
            }
        }
        return None;
    }
    // The first quote after the prefix closes the method name.
    let mut q = pl;
    while q < n && line[q] != 34
        invariant
            pl <= q <= n,
            n == line@.len(),
            forall|k: int| pl <= k < q ==> line@[k] != 34u8,
        decreases n - q,
    {
        q += 1;
    }
    if q == n {
        proof {
            assert forall|m: ReqModel| !(wf_method(m.method) && line@ == encode_spec(
                m,
            )) by {
                if wf_method(m.method) && line@ == encode_spec(m) {
                    lemma_encode_shape(m);
                    assert(line@[pl + m.method.len()] == 34u8);
                }
            }
        }
        return None;
    }
    let method = vstd::slice::slice_to_vec(vstd::slice::slice_subrange(line, pl, q));
    // The line must close with a brace preceded by the id digits.
    if line[n - 1] != 125 {
        proof {
            assert forall|m: ReqModel| !(wf_method(m.method) && line@ == encode_spec(
                m,
            )) by {
                if wf_method(m.method) && line@ == encode_spec(m) {
                    lemma_encode_shape(m);
                }
            }
        }
        return None;
    }
    let mut d = n - 1;
    while d > 0 && 48 <= line[d - 1] && line[d - 1] <= 57
        invariant
            0 <= d <= n - 1,
            n == line@.len(),
            forall|k: int| d <= k < n - 1 ==> is_digit(line@[k]),
        decreases d,
    {
        d -= 1;
    }
    if d == n - 1 || d < 6 {
        proof {
            assert forall|m: ReqModel| !(wf_method(m.method) && line@ == encode_spec(
                m,
            )) by {
                if wf_method(m.method) && line@ == encode_spec(m) {
                    lemma_encode_shape(m);
                    lemma_dec_bytes_digits(m.id as nat);
                    let pl_ = prefix_bytes().len() as int;
                    let ds = pl_ + m.method.len() + 1 + params_len(m) + 6;
                    let dlen = dec_bytes(m.id as nat).len() as int;
                    assert(is_digit(line@[ds]));
                    assert(line@[ds - 1] == 58u8);
                }
            }
        }
        return None;
    }
    let f = d - 6;
    if !(line[f] == 44 && line[f + 1] == 34 && line[f + 2] == 105 && line[f + 3] == 100 && line[f
        + 4] == 34 && line[f + 5] == 58) {
        proof {
            assert forall|m: ReqModel| !(wf_method(m.method) && line@ == encode_spec(
                m,
            )) by {
                if wf_method(m.method) && line@ == encode_spec(m) {
                    lemma_encode_shape(m);
                    lemma_dec_bytes_digits(m.id as nat);
                    let pl_ = prefix_bytes().len() as int;
                    let ds = pl_ + m.method.len() + 1 + params_len(m) + 6;
                    let dlen = dec_bytes(m.id as nat).len() as int;
                    assert(is_digit(line@[ds]));
                    assert(line@[ds - 1] == 58u8);
                    assert(d == ds);
                }
            }
        }
        return None;
    }
    let id = match parse_dec_digits(line, d, n - 1) {
        Some(v) => v,
        None => {
            proof {
                assert forall|m: ReqModel| !(wf_method(m.method) && line@ == encode_spec(
                    m,
                )) by {
                    if wf_method(m.method) && line@ == encode_spec(m) {
                        lemma_encode_shape(m);
                        lemma_dec_bytes_digits(m.id as nat);
                        lemma_parse_dec_bytes(m.id);
                        let pl_ = prefix_bytes().len() as int;
                        let ds = pl_ + m.method.len() + 1 + params_len(m) + 6;
                        let dlen = dec_bytes(m.id as nat).len() as int;
                        assert(is_digit(line@[ds]));
                        assert(line@[ds - 1] == 58u8);
                        assert(d == ds);
                        assert(line@.subrange(d as int, n - 1) == dec_bytes(m.id as nat));
                    }
                }
            }
            return None;
        },
    };
    let p = q + 1;
    if f == p {
        let out = JsonRpcRequest { method, params: None, id };
        proof {
            assert forall|m: ReqModel|
                wf_method(m.method) && line@ == encode_spec(m) implies (Some(out)
                matches Some(qq) && qq@ =~= m) by {
                lemma_encode_shape(m);
                lemma_dec_bytes_digits(m.id as nat);
                lemma_parse_dec_bytes(m.id);
                let pl_ = prefix_bytes().len() as int;
                let qp = pl_ + m.method.len() as int;
                let ds = qp + 1 + params_len(m) + 6;
                let dlen = dec_bytes(m.id as nat).len() as int;
                assert(is_digit(line@[ds]));
                assert(line@[ds - 1] == 58u8);
                assert(d == ds);
                // The quote found is the one that closes the method.
                assert(q == qp);
                assert(method@ =~= m.method);
                // A params frame cannot sit where the id frame was matched.
                if m.params is Some {
                    assert(line@[qp + 3] == 114u8);
                    assert(line@[f + 3] == 100u8);
                }
                assert(line@.subrange(d as int, n - 1) == dec_bytes(m.id as nat));
            }
        }
        return Some(out);
    }
    if p <= f && f - p >= 10 && line[p] == 44 && line[p + 1] == 34 && line[p + 2] == 112 && line[p + 3]
        == 97 && line[p + 4] == 114 && line[p + 5] == 97 && line[p + 6] == 109 && line[p + 7]
        == 115 && line[p + 8] == 34 && line[p + 9] == 58 {
        let params = vstd::slice::slice_to_vec(vstd::slice::slice_subrange(line, p + 10, f));
        let out = JsonRpcRequest { method, params: Some(params), id };
        proof {
            assert forall|m: ReqModel|
                wf_method(m.method) && line@ == encode_spec(m) implies (Some(out)
                matches Some(qq) && qq@ =~= m) by {
                lemma_encode_shape(m);
                lemma_dec_bytes_digits(m.id as nat);
                lemma_parse_dec_bytes(m.id);
                let pl_ = prefix_bytes().len() as int;
                let qp = pl_ + m.method.len() as int;
                let ds = qp + 1 + params_len(m) + 6;
                let dlen = dec_bytes(m.id as nat).len() as int;
                assert(is_digit(line@[ds]));
                assert(line@[ds - 1] == 58u8);
                assert(d == ds);
                assert(q == qp);
                assert(method@ =~= m.method);
                if m.params is None {
                    // Then the id frame would start right after the quote.
                    assert(f == qp + 1);
                }
                assert(line@.subrange(qp + 11, f as int) == m.params.unwrap());
                assert(params@ =~= m.params.unwrap());
                assert(line@.subrange(d as int, n - 1) == dec_bytes(m.id as nat));
            }
        }
        return Some(out);
    }
    proof {
        assert forall|m: ReqModel| !(wf_method(m.method) && line@ == encode_spec(m)) by {
            if wf_method(m.method) && line@ == encode_spec(m) {
                lemma_encode_shape(m);
                lemma_dec_bytes_digits(m.id as nat);
                let pl_ = prefix_bytes().len() as int;
                let qp = pl_ + m.method.len() as int;
                let ds = qp + 1 + params_len(m) + 6;
                let dlen = dec_bytes(m.id as nat).len() as int;
                assert(is_digit(line@[ds]));
                assert(line@[ds - 1] == 58u8);
                assert(d == ds);
                assert(q == qp);
                if m.params is Some {
                    let pp = m.params.unwrap();
                    assert(line@.subrange(qp + 1, qp + 11) == params_frame());
                    assert(f == qp + 11 + pp.len());
                }
            }
        }
    }
    None
}

/// The hex digit byte for `d`, lower case.
pub open spec fn hex_digit(d: nat) -> u8
    recommends
        d < 16,
{
    if d < 10 {
        (48 + d) as u8
    } else {
        (87 + d) as u8
    }
}

/// How one byte appears inside a JSON string: quotes and backslashes
/// get a backslash, control bytes a six-byte escape, all else passes
/// through.
pub open spec fn escape_byte(b: u8) -> Seq<u8> {
    if b == 34 {
        seq![92u8, 34u8]
    } else if b == 92 {
        seq![92u8, 92u8]
    } else if b < 32 {
        seq![92u8, 117u8, 48u8, 48u8, hex_digit((b >> 4) as nat), hex_digit((b & 15) as nat)]
    } else {
        seq![b]
    }
}

/// The whole string escaped, byte for byte.
pub open spec fn escape_bytes(s: Seq<u8>) -> Seq<u8>
    decreases s.len(),
{
    if s.len() == 0 {
        Seq::<u8>::empty()
    } else {
        escape_byte(s[0]) + escape_bytes(s.drop_first())
    }
}

/// Escaping one more byte at the right appends its escape.
proof fn lemma_escape_bytes_push(s: Seq<u8>, b: u8)
    ensures
        escape_bytes(s.push(b)) == escape_bytes(s) + escape_byte(b),
    decreases s.len(),
{
    if s.len() == 0 {
        assert(s.push(b)[0] == b);
        assert(s.push(b).drop_first() =~= Seq::<u8>::empty());
        assert(escape_bytes(Seq::<u8>::empty()) =~= Seq::<u8>::empty());
        assert(escape_bytes(s.push(b)) == escape_byte(b) + escape_bytes(s.push(b).drop_first()));
        assert(escape_byte(b) + Seq::<u8>::empty() =~= escape_byte(b));
        assert(escape_bytes(s) + escape_byte(b) =~= escape_byte(b));
    } else {
        assert(s.push(b)[0] == s[0]);
        assert(s.push(b).drop_first() =~= s.drop_first().push(b));
        lemma_escape_bytes_push(s.drop_first(), b);
        assert(escape_byte(s[0]) + (escape_bytes(s.drop_first()) + escape_byte(b)) =~= (escape_byte(
            s[0],
        ) + escape_bytes(s.drop_first())) + escape_byte(b));
    }
}

/// Escapes `s` for embedding inside a JSON string literal.
pub fn escape_json_bytes(s: &[u8]) -> (out: Vec<u8>)
    ensures
        out@ == escape_bytes(s@),
{
    let n = s.len();
    let mut out: Vec<u8> = Vec::new();
    let mut i: usize = 0;
    while i < n
        invariant
            n == s@.len(),
            i <= n,
            out@ == escape_bytes(s@.take(i as int)),
        decreases n - i,
    {
        let b = s[i];
        proof {
            assert(s@.take(i + 1) =~= s@.take(i as int).push(s@[i as int]));
            lemma_escape_bytes_push(s@.take(i as int), s@[i as int]);
        }
        if b == 34 {
            out.push(92);
            out.push(34);
        } else if b == 92 {
            out.push(92);
            out.push(92);
        } else if b < 32 {
            proof {
                assert(b >> 4 <= 15) by (bit_vector);
                assert(b & 15 <= 15) by (bit_vector);
            }
            out.push(92);
            out.push(117);
            out.push(48);
            out.push(48);
            let hi = b >> 4;
            let lo = b & 15;
            out.push(if hi < 10 {
                48 + hi
            } else {
                87 + hi
            });
            out.push(if lo < 10 {
                48 + lo
            } else {
                87 + lo
            });
        } else {
            out.push(b);
        }
        proof {
            assert(out@ =~= escape_bytes(s@.take(i as int)) + escape_byte(s@[i as int]));
        }
        i += 1;
    }
    proof {
        assert(s@.take(n as int) =~= s@);
    }
    out
}

/// The params document of a tool invocation: the raw argument text
/// and the escaped tool name, in the order the keys sort.
pub open spec fn call_params_spec(name: Seq<u8>, args: Seq<u8>) -> Seq<u8> {
    "{\"arguments\":".spec_bytes() + args + ",\"name\":\"".spec_bytes() + escape_bytes(name)
        + "\"}".spec_bytes()
}

/// Builds the params document for invoking `name` with the raw
/// argument text `args`.
pub fn call_params(name: &str, args: &str) -> (out: Vec<u8>)
    ensures
        out@ == call_params_spec(name.spec_bytes(), args.spec_bytes()),
{
    let mut out: Vec<u8> = Vec::new();
    push_str_bytes(&mut out, "{\"arguments\":");
    push_bytes(&mut out, args.as_bytes());
    push_str_bytes(&mut out, ",\"name\":\"");
    let escaped = escape_json_bytes(name.as_bytes());
    push_bytes(&mut out, escaped.as_slice());
    push_str_bytes(&mut out, "\"}");
    proof {
        assert(out@ =~= call_params_spec(name.spec_bytes(), args.spec_bytes()));
    }
    out
}

/// The fixed params document of the handshake: this client's
/// identity, its (empty) capability set, and the protocol version it
/// speaks.
pub open spec fn initialize_params_bytes() -> Seq<u8> {
    "{\"capabilities\":{\"experimental\":null},\"clientInfo\":{\"name\":\"AETHER\",\"version\":\"0.1.0\"},\"protocolVersion\":\"2024-11-05\"}".spec_bytes()
}

/// Builds the handshake params document.
pub fn initialize_params() -> (out: Vec<u8>)
    ensures
        out@ == initialize_params_bytes(),
{
    let mut out: Vec<u8> = Vec::new();
    push_str_bytes(
        &mut out,
        "{\"capabilities\":{\"experimental\":null},\"clientInfo\":{\"name\":\"AETHER\",\"version\":\"0.1.0\"},\"protocolVersion\":\"2024-11-05\"}",
    );
    proof {
        assert(out@ =~= initialize_params_bytes());
    }
    out
}

/// Compares `pat` against `buf` at `pos`.
fn match_at(buf: &[u8], pos: usize, pat: &[u8]) -> (b: bool)
    ensures
        b <==> (pos + pat@.len() <= buf@.len() && buf@.subrange(
            pos as int,
            pos as int + pat@.len(),
        ) == pat@),
{
    let bl = buf.len();
    let l = pat.len();
    if pos > bl || l > bl - pos {
        return false;
    }
    let mut j: usize = 0;
    while j < l
        invariant
            j <= l,
            pos + l <= bl,
            bl == buf@.len(),
            l == pat@.len(),
            forall|k: int| 0 <= k < j ==> buf@[pos + k] == pat@[k],
        decreases l - j,
    {
        if buf[pos + j] != pat[j] {
            proof {
                assert(buf@.subrange(pos as int, pos as int + pat@.len())[j as int] == buf@[pos
                    + j]);
            }
            return false;
        }
        j += 1;
    }
    proof {
        assert(buf@.subrange(pos as int, pos as int + pat@.len()) =~= pat@);
    }
    true
}

/// Appends the frame that introduces the id.
fn push_id_frame(v: &mut Vec<u8>)
    ensures
        final(v)@ =~= old(v)@ + id_frame(),
{
    v.push(44);
    v.push(34);
    v.push(105);
    v.push(100);
    v.push(34);
    v.push(58);
    proof {
        assert(v@ =~= old(v)@ + id_frame());
    }
}

} // verus!

verus! {

/// No raw newline or carriage return among these bytes: what the
/// framing emits must stay one physical line.
pub open spec fn clean_bytes(s: Seq<u8>) -> bool {
    forall|i: int| 0 <= i < s.len() ==> s[i] != 10u8 && s[i] != 13u8
}

/// Concatenation keeps cleanliness.
proof fn lemma_clean_concat(a: Seq<u8>, b: Seq<u8>)
    requires
        clean_bytes(a),
        clean_bytes(b),
    ensures
        clean_bytes(a + b),
{
    assert forall|i: int| 0 <= i < (a + b).len() implies (a + b)[i] != 10u8 && (a + b)[i]
        != 13u8 by {
        if i < a.len() {
            assert((a + b)[i] == a[i]);
        } else {
            assert((a + b)[i] == b[i - a.len()]);
        }
    }
}

/// A byte with its high bit forced on stays far above the newline
/// codes.
proof fn lemma_or_high(m: u8, x: u8)
    requires
        m >= 0x80,
    ensures
        (m | x) >= 0x80,
{
    assert(m >= 0x80 ==> (m | x) >= 0x80u8) by (bit_vector);
}

/// The UTF-8 encoding of text without newline or carriage-return
/// characters contains neither byte: an ASCII character keeps its
/// code, and every byte of a wider encoding lies at 0x80 or above.
pub proof fn lemma_utf8_clean(chars: Seq<char>)
    requires
        forall|i: int| 0 <= i < chars.len() ==> chars[i] != '\n' && chars[i] != '\r',
    ensures
        clean_bytes(vstd::utf8::encode_utf8(chars)),
    decreases chars.len(),
{
    if chars.len() != 0 {
        let c = chars[0] as u32;
        vstd::utf8::char_is_scalar(chars[0]);
        let e = vstd::utf8::encode_scalar(c);
        assert(chars[0] != '\n' && chars[0] != '\r');
        // Distinct characters have distinct codes: casting back tells
        // them apart.
        vstd::utf8::char_u32_cast(chars[0], c);
        vstd::utf8::char_u32_cast('\n', '\n' as u32);
        vstd::utf8::char_u32_cast('\r', '\r' as u32);
        if c == 10 {
            assert((c as char) == chars[0]);
            assert((('\n' as u32) as char) == '\n');
            assert(false);
        }
        if c == 13 {
            assert((c as char) == chars[0]);
            assert((('\r' as u32) as char) == '\r');
            assert(false);
        }
        assert(c != 10 && c != 13);
        if vstd::utf8::has_width_1_encoding(c) {
            assert(c <= 0x7F ==> (c & 0x7F) == c) by (bit_vector);
            assert(e =~= seq![(c & 0x7F) as u8]);
            assert(e[0] == c as u8);
            assert(clean_bytes(e));
        } else if vstd::utf8::has_width_2_encoding(c) {
            lemma_or_high(0xC0, (((c >> 6) & 0x1F) as u8));
            lemma_or_high(0x80, ((c & 0x3F) as u8));
            assert(clean_bytes(e));
        } else if vstd::utf8::has_width_3_encoding(c) {
            lemma_or_high(0xE0, (((c >> 12) & 0x0F) as u8));
            lemma_or_high(0x80, (((c >> 6) & 0x3F) as u8));
            lemma_or_high(0x80, ((c & 0x3F) as u8));
            assert(clean_bytes(e));
        } else {
            lemma_or_high(0xF0, (((c >> 18) & 0x7) as u8));
            lemma_or_high(0x80, (((c >> 12) & 0x3F) as u8));
            lemma_or_high(0x80, (((c >> 6) & 0x3F) as u8));
            lemma_or_high(0x80, ((c & 0x3F) as u8));
            assert(clean_bytes(e));
        }
        lemma_utf8_clean(chars.drop_first());
        lemma_clean_concat(e, vstd::utf8::encode_utf8(chars.drop_first()));
        assert(vstd::utf8::encode_utf8(chars) == e + vstd::utf8::encode_utf8(
            chars.drop_first(),
        ));
    }
}

/// Escaping never emits a newline byte: escapes are made of
/// backslashes, letters and digits, and a byte that passes through
/// unchanged is no control byte.
proof fn lemma_escape_clean(s: Seq<u8>)
    ensures
        clean_bytes(escape_bytes(s)),
    decreases s.len(),
{
    if s.len() != 0 {
        let b = s[0];
        assert(b >> 4 <= 15) by (bit_vector);
        assert(b & 15 <= 15) by (bit_vector);
        assert(clean_bytes(escape_byte(b)));
        lemma_escape_clean(s.drop_first());
        lemma_clean_concat(escape_byte(b), escape_bytes(s.drop_first()));
    }
}

/// A decimal rendering is all digit bytes, so clean.
proof fn lemma_dec_bytes_clean(n: nat)
    ensures
        clean_bytes(dec_bytes(n)),
{
    lemma_dec_bytes_digits(n);
}

/// The single-line law for a tool invocation: as long as the raw
/// argument text holds no newline or carriage-return character, the
/// whole framed line holds no such byte — the frames are fixed clean
/// text, the tool name is escaped, and the id is digits.
pub proof fn lemma_call_line_single(name: Seq<char>, args: Seq<char>, id: u64)
    requires
        forall|i: int| 0 <= i < args.len() ==> args[i] != '\n' && args[i] != '\r',
    ensures
        clean_bytes(
            encode_spec(
                (ReqModel {
                    method: method_tools_call_bytes(),
                    params: Some(
                        call_params_spec(
                            vstd::utf8::encode_utf8(name),
                            vstd::utf8::encode_utf8(args),
                        ),
                    ),
                    id: id,
                }),
            ),
        ),
{
    reveal_strlit("{\"jsonrpc\":\"2.0\",\"method\":\"");
    assert forall|i: int|
        0 <= i < "{\"jsonrpc\":\"2.0\",\"method\":\""@.len() implies "{\"jsonrpc\":\"2.0\",\"method\":\""@[i]
        != '\n' && "{\"jsonrpc\":\"2.0\",\"method\":\""@[i] != '\r' by {
        reveal_strlit("{\"jsonrpc\":\"2.0\",\"method\":\"");
    }
    lemma_utf8_clean("{\"jsonrpc\":\"2.0\",\"method\":\""@);
    reveal_strlit("tools/call");
    assert forall|i: int| 0 <= i < "tools/call"@.len() implies "tools/call"@[i] != '\n'
        && "tools/call"@[i] != '\r' by {
        reveal_strlit("tools/call");
    }
    lemma_utf8_clean("tools/call"@);
    reveal_strlit("{\"arguments\":");
    assert forall|i: int|
        0 <= i < "{\"arguments\":"@.len() implies "{\"arguments\":"@[i] != '\n'
        && "{\"arguments\":"@[i] != '\r' by {
        reveal_strlit("{\"arguments\":");
    }
    lemma_utf8_clean("{\"arguments\":"@);
    reveal_strlit(",\"name\":\"");
    assert forall|i: int| 0 <= i < ",\"name\":\""@.len() implies ",\"name\":\""@[i] != '\n'
        && ",\"name\":\""@[i] != '\r' by {
        reveal_strlit(",\"name\":\"");
    }
    lemma_utf8_clean(",\"name\":\""@);
    reveal_strlit("\"}");
    assert forall|i: int| 0 <= i < "\"}"@.len() implies "\"}"@[i] != '\n' && "\"}"@[i]
        != '\r' by {
        reveal_strlit("\"}");
    }
    lemma_utf8_clean("\"}"@);
    lemma_utf8_clean(args);
    lemma_escape_clean(vstd::utf8::encode_utf8(name));
    lemma_dec_bytes_clean(id as nat);
    let p = call_params_spec(vstd::utf8::encode_utf8(name), vstd::utf8::encode_utf8(args));
    lemma_clean_concat("{\"arguments\":".spec_bytes(), vstd::utf8::encode_utf8(args));
    lemma_clean_concat(
        "{\"arguments\":".spec_bytes() + vstd::utf8::encode_utf8(args),
        ",\"name\":\"".spec_bytes(),
    );
    lemma_clean_concat(
        "{\"arguments\":".spec_bytes() + vstd::utf8::encode_utf8(args)
            + ",\"name\":\"".spec_bytes(),
        escape_bytes(vstd::utf8::encode_utf8(name)),
    );
    lemma_clean_concat(
        "{\"arguments\":".spec_bytes() + vstd::utf8::encode_utf8(args)
            + ",\"name\":\"".spec_bytes() + escape_bytes(vstd::utf8::encode_utf8(name)),
        "\"}".spec_bytes(),
    );
    assert(clean_bytes(p));
    let m = ReqModel { method: method_tools_call_bytes(), params: Some(p), id: id };
    assert(clean_bytes(quote_byte()));
    assert(clean_bytes(params_frame()));
    assert(clean_bytes(id_frame()));
    assert(clean_bytes(close_byte()));
    lemma_clean_concat(prefix_bytes(), method_tools_call_bytes());
    lemma_clean_concat(prefix_bytes() + method_tools_call_bytes(), quote_byte());
    lemma_clean_concat(params_frame(), p);
    lemma_clean_concat(
        prefix_bytes() + method_tools_call_bytes() + quote_byte(),
        params_frame() + p,
    );
    lemma_clean_concat(
        prefix_bytes() + method_tools_call_bytes() + quote_byte() + (params_frame() + p),
        id_frame(),
    );
    lemma_clean_concat(
        prefix_bytes() + method_tools_call_bytes() + quote_byte() + (params_frame() + p)
            + id_frame(),
        dec_bytes(id as nat),
    );
    lemma_clean_concat(
        prefix_bytes() + method_tools_call_bytes() + quote_byte() + (params_frame() + p)
            + id_frame() + dec_bytes(id as nat),
        close_byte(),
    );
    assert(clean_bytes(encode_spec(m)));
}

} // verus!
