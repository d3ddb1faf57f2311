//! Named build parameters and the ordered list of them that forms the wire
//! body of a build request, with its verified JSON serialization.

use vstd::prelude::*;
use vstd::string::StringExecFns;

use crate::build_param_type::{param_wire, BuildParamType, BuildParamTypeView};
use crate::jsonenc::{append_escaped, esc};
use crate::jsonenc::{lemma_scan_consumes, lemma_scan_escaped, scan_string};
use crate::strutil::{join_commas_spec, lemma_join_commas_snoc, push_char};

verus! {

/// One named parameter of a build request; the expected JSON form of the
/// request dictates that name and value are separate fields.
#[derive(Debug, PartialEq)]
pub struct BuildParameter {
    pub name: String,
    pub value: BuildParamType,
}

/// The mathematical shadow of [`BuildParameter`].
pub struct BuildParameterView {
    pub name: Seq<char>,
    pub value: BuildParamTypeView,
}

impl View for BuildParameter {
    type V = BuildParameterView;

    open spec fn view(&self) -> BuildParameterView {
        BuildParameterView { name: self.name@, value: self.value@ }
    }
}

impl DeepView for BuildParameter {
    type V = BuildParameterView;

    open spec fn deep_view(&self) -> BuildParameterView {
        self.view()
    }
}

impl BuildParameter {
    /// Pair a parameter name with its typed value.
    pub fn new(name: &str, value: BuildParamType) -> (r: BuildParameter)
        ensures
            r@.name == name@,
            r@.value == value@,
    {
        BuildParameter { name: name.to_owned(), value }
    }
}

/// The JSON object for one parameter: `{"name":"...","value":"..."}`, both
/// fields written as escaped string literals, the value by its wire string.
pub open spec fn param_json(p: BuildParameterView) -> Seq<char> {
    "{\"name\":\""@ + esc(p.name) + "\",\"value\":\""@ + esc(param_wire(p.value)) + "\"}"@
}

/// The JSON document for a whole parameter list: an object with the single
/// key `parameter` holding the array of parameter objects, in list order.
pub open spec fn params_json(ps: Seq<BuildParameterView>) -> Seq<char> {
    "{\"parameter\":["@ + join_commas_spec(ps.map_values(|p: BuildParameterView| param_json(p)))
        + "]}"@
}

/// Read one parameter object `{"name":"...","value":"..."}` off the front of
/// the text: the decoded name and value, and what follows the object.
pub open spec fn parse_param_obj(s: Seq<char>) -> Option<((Seq<char>, Seq<char>), Seq<char>)> {
    if s.len() >= 9 && s.subrange(0, 9) == "{\"name\":\""@ {
        match scan_string(s.subrange(9, s.len() as int)) {
            Some((k, r1)) => if r1.len() >= 10 && r1.subrange(0, 10) == ",\"value\":\""@ {
                match scan_string(r1.subrange(10, r1.len() as int)) {
                    Some((v, r2)) => if r2.len() >= 1 && r2[0] == '}' {
                        Some(((k, v), r2.drop_first()))
                    } else {
                        None
                    },
                    None => None,
                }
            } else {
                None
            },
            None => None,
        }
    } else {
        None
    }
}

/// Reading an object consumes at least its braces and quotes.
proof fn lemma_parse_obj_consumes(s: Seq<char>)
    ensures
        parse_param_obj(s) matches Some((kv, rest)) ==> rest.len() < s.len(),
{
    if s.len() >= 9 && s.subrange(0, 9) == "{\"name\":\""@ {
        lemma_scan_consumes(s.subrange(9, s.len() as int));
        match scan_string(s.subrange(9, s.len() as int)) {
            Some((k, r1)) => {
                if r1.len() >= 10 && r1.subrange(0, 10) == ",\"value\":\""@ {
                    lemma_scan_consumes(r1.subrange(10, r1.len() as int));
                }
            },
            None => {},
        }
    }
}

/// Read a comma-separated run of parameter objects off the front of the
/// text: the decoded pairs, in order, and what follows the run.
pub open spec fn parse_param_list(s: Seq<char>) -> Option<
    (Seq<(Seq<char>, Seq<char>)>, Seq<char>),
>
    decreases s.len(),
    via parse_param_list_decreases
{
    match parse_param_obj(s) {
        Some((kv, rest)) => if rest.len() >= 1 && rest[0] == ',' {
            match parse_param_list(rest.drop_first()) {
                Some((more, r)) => Some((seq![kv] + more, r)),
                None => None,
            }
        } else {
            Some((seq![kv], rest))
        },
        None => None,
    }
}

#[via_fn]
proof fn parse_param_list_decreases(s: Seq<char>) {
    lemma_parse_obj_consumes(s);
}

/// Read a whole serialized parameter list back: `None` unless the text is an
/// object with the single key `parameter` holding an array of parameter
/// objects, whose decoded (name, value) pairs are returned in array order.
pub open spec fn parse_params_doc(s: Seq<char>) -> Option<Seq<(Seq<char>, Seq<char>)>> {
    if s.len() >= 14 && s.subrange(0, 14) == "{\"parameter\":["@ {
        let body = s.subrange(14, s.len() as int);
        if body == "]}"@ {
            Some(Seq::empty())
        } else {
            match parse_param_list(body) {
                Some((kvs, rest)) => if rest == "]}"@ {
                    Some(kvs)
                } else {
                    None
                },
                None => None,
            }
        }
    } else {
        None
    }
}

/// The (name, wire string) pairs a parameter list carries.
pub open spec fn param_pairs(ps: Seq<BuildParameterView>) -> Seq<(Seq<char>, Seq<char>)> {
    ps.map_values(|p: BuildParameterView| (p.name, param_wire(p.value)))
}

/// Reading back one serialized parameter yields its exact name and the exact
/// wire string of its value.
proof fn lemma_parse_obj_round_trip(p: BuildParameterView, t: Seq<char>)
    ensures
        parse_param_obj(param_json(p) + t) == Some(((p.name, param_wire(p.value)), t)),
{
    let w = param_json(p) + t;
    reveal_strlit("{\"name\":\"");
    reveal_strlit("\",\"value\":\"");
    reveal_strlit(",\"value\":\"");
    reveal_strlit("\"}");
    reveal_strlit("}");
    assert(w.subrange(0, 9) =~= "{\"name\":\""@);
    let t1 = ",\"value\":\""@ + esc(param_wire(p.value)) + "\"}"@ + t;
    assert(w.subrange(9, w.len() as int) =~= esc(p.name) + seq!['"'] + t1);
    lemma_scan_escaped(p.name, t1);
    assert(t1.subrange(0, 10) =~= ",\"value\":\""@);
    let t2 = "}"@ + t;
    assert(t1.subrange(10, t1.len() as int) =~= esc(param_wire(p.value)) + seq!['"'] + t2);
    lemma_scan_escaped(param_wire(p.value), t2);
    assert(t2[0] == '}');
    assert(t2.drop_first() =~= t);
}

/// Reading back a serialized run of parameters yields their pairs in order,
/// stopping exactly where the run ends.
proof fn lemma_parse_list_round_trip(ps: Seq<BuildParameterView>, t: Seq<char>)
    requires
        ps.len() > 0,
        t.len() == 0 || t[0] != ',',
    ensures
        parse_param_list(
            join_commas_spec(ps.map_values(|p: BuildParameterView| param_json(p))) + t,
        ) == Some((param_pairs(ps), t)),
    decreases ps.len(),
{
    let m = ps.map_values(|p: BuildParameterView| param_json(p));
    if ps.len() == 1 {
        assert(join_commas_spec(m) == m[0]);
        assert(m[0] == param_json(ps[0]));
        lemma_parse_obj_round_trip(ps[0], t);
        assert(param_pairs(ps) =~= seq![(ps[0].name, param_wire(ps[0].value))]);
    } else {
        let rest = ps.drop_first();
        let mrest = rest.map_values(|p: BuildParameterView| param_json(p));
        assert(m.drop_first() =~= mrest);
        assert(join_commas_spec(m) == m[0] + seq![','] + join_commas_spec(mrest));
        let t1 = seq![','] + join_commas_spec(mrest) + t;
        assert(join_commas_spec(m) + t =~= param_json(ps[0]) + t1);
        lemma_parse_obj_round_trip(ps[0], t1);
        assert(t1[0] == ',');
        assert(t1.drop_first() =~= join_commas_spec(mrest) + t);
        lemma_parse_list_round_trip(rest, t);
        assert(seq![(ps[0].name, param_wire(ps[0].value))] + param_pairs(rest) =~= param_pairs(
            ps,
        ));
    }
}

/// Serialization loses nothing: reading the serialized JSON document back
/// recovers, for every parameter in list order, exactly the original name
/// and the original canonical wire string of its value. Re-parsing the
/// `value` fields therefore reproduces the string form of each
/// [`BuildParamType`].
pub proof fn lemma_params_json_round_trip(ps: Seq<BuildParameterView>)
    ensures
        parse_params_doc(params_json(ps)) == Some(param_pairs(ps)),
{
    let w = params_json(ps);
    let m = ps.map_values(|p: BuildParameterView| param_json(p));
    reveal_strlit("{\"parameter\":[");
    reveal_strlit("]}");
    assert(w.subrange(0, 14) =~= "{\"parameter\":["@);
    let body = w.subrange(14, w.len() as int);
    assert(body =~= join_commas_spec(m) + "]}"@);
    if ps.len() == 0 {
        assert(join_commas_spec(m) =~= Seq::<char>::empty());
        assert(body =~= "]}"@);
        assert(param_pairs(ps) =~= Seq::<(Seq<char>, Seq<char>)>::empty());
    } else {
        lemma_parse_list_round_trip(ps, "]}"@);
        assert(body != "]}"@) by {
            reveal_strlit("{\"name\":\"");
            assert(m[0] == param_json(ps[0]));
            assert(body[0] == '{' && "]}"@[0] == ']');
        }
    }
}

/// An ordered list of [`BuildParameter`]s: the literal wire body of a build
/// request. Entries are only ever appended; order and duplicates are kept.
#[derive(Debug, PartialEq)]
pub struct BuildParameters {
    pub parameter: Vec<BuildParameter>,
}

impl View for BuildParameters {
    type V = Seq<BuildParameterView>;

    open spec fn view(&self) -> Seq<BuildParameterView> {
        self.parameter.deep_view()
    }
}

impl BuildParameters {
    /// Create a new, empty parameter list.
    pub fn new() -> (r: BuildParameters)
        ensures
            r@ == Seq::<BuildParameterView>::empty(),
    {
        let r = BuildParameters { parameter: Vec::new() };
        proof {
            assert(r@ =~= Seq::<BuildParameterView>::empty());
        }
        r
    }

    /// Append one parameter; the only mutation the list ever sees.
    pub fn push(&mut self, value: BuildParameter)
        ensures
            final(self)@ == old(self)@.push(value@),
    {
        let ghost pre = self.parameter.deep_view();
        self.parameter.push(value);
        proof {
            assert(self.parameter.deep_view() =~= pre.push(value@));
        }
    }

    /// Serialize the list to its JSON wire form.
    pub fn to_json(&self) -> (r: String)
        ensures
            r@ == params_json(self@),
    {
        let ghost mapped = self@.map_values(|p: BuildParameterView| param_json(p));
        let mut out = "{\"parameter\":[".to_owned();
        let mut i: usize = 0;
        while i < self.parameter.len()
            invariant
                i <= self.parameter.len(),
                mapped == self@.map_values(|p: BuildParameterView| param_json(p)),
                mapped.len() == self@.len(),
                self@.len() == self.parameter.len(),
                self@ == self.parameter.deep_view(),
                out@ == "{\"parameter\":["@ + join_commas_spec(mapped.subrange(0, i as int)),
            decreases self.parameter.len() - i,
        {
            if i > 0 {
                push_char(&mut out, ',');
            }
            let ghost pre = mapped.subrange(0, i as int);
            out.append("{\"name\":\"");
            append_escaped(&mut out, self.parameter[i].name.as_str());
            out.append("\",\"value\":\"");
            let wire = self.parameter[i].value.wire_string();
            append_escaped(&mut out, wire.as_str());
            out.append("\"}");
            i += 1;
            proof {
                let cur = mapped.subrange(0, i as int);
                assert(cur =~= pre.push(mapped[i - 1]));
                assert(mapped[i - 1] == param_json(self@[i - 1]));
                if pre.len() == 0 {
                    assert(join_commas_spec(cur) == cur[0]);
                    assert(out@ =~= "{\"parameter\":["@ + param_json(self@[i - 1]));
                } else {
                    lemma_join_commas_snoc(pre, mapped[i - 1]);
                }
                assert(out@ =~= "{\"parameter\":["@ + join_commas_spec(cur));
            }
        }
        out.append("]}");
        proof {
            assert(mapped.subrange(0, mapped.len() as int) =~= mapped);
            assert(out@ =~= params_json(self@));
        }
        out
    }
}

} // verus!
