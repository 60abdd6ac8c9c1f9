//! Decoder for the death-specific payload schema.
//!
//! Death payloads do not follow the generic recursive grammar: after the
//! death-type key they carry a second template key and a fixed number of
//! flagged parameters (victim, context, killer and — for player kills —
//! weapon).  Unresolvable keys fall back to their raw text here, by design:
//! a partially known death line is still worth showing.
use vstd::prelude::*;

verus! {

use vstd::string::StringSliceAdditionalSpecFns;
use crate::bytestr::is_prefix;
use crate::bytestr::replace_first_spec;
use crate::bytestr::replace_first;
use crate::bytestr::dec_int;
use crate::bytestr::starts_with;
use crate::bytestr::bytes_eq;
use crate::bytestr::to_vec;
use crate::bytestr::push_bytes;
use crate::bytestr::u64_to_dec;
use crate::bytestr::i64_to_dec;
use crate::generic::spec_get_string;
use crate::generic::get_string;
use crate::generic::placeholder;
use crate::generic::make_placeholder;
use crate::generic::views;
use crate::strings::LocTable;
use crate::strings::dotted_lookup;
use crate::strings::lookup_string;

/// Why a death payload could not be assembled into a record.
#[derive(Clone, Copy, Debug, PartialEq, Eq, Structural)]
pub enum MissingDeathData {
    /// The leading death-type string is unreadable.
    TypeString,
    /// The death-type key belongs to neither known family.
    UnknownCause,
    /// The payload ends before the death body.
    Truncated,
    /// The template-base string of a sourced death is unreadable.
    BaseString,
    /// A positional parameter is missing or unreadable.
    Params,
    /// The victim name of a causeless death is unreadable.
    NameString,
}

/// An assembled death event.
pub struct Death {
    /// The fully formatted message.
    pub msg: Vec<u8>,
    /// Victim name.
    pub victim: Vec<u8>,
    /// Killer name, when a cause was identified.
    pub killer: Option<Vec<u8>>,
    /// Weapon name, for player kills only.
    pub weapon: Option<Vec<u8>>,
    /// Whether another player caused the death.
    pub is_pk: bool,
}

/// Mathematical image of a [`Death`].
pub ghost struct DeathModel {
    pub msg: Seq<u8>,
    pub victim: Seq<u8>,
    pub killer: Option<Seq<u8>>,
    pub weapon: Option<Seq<u8>>,
    pub is_pk: bool,
}

pub open spec fn opt_bytes_view(o: Option<Vec<u8>>) -> Option<Seq<u8>> {
    match o {
        None => None,
        Some(v) => Some(v@),
    }
}

impl View for Death {
    type V = DeathModel;

    open spec fn view(&self) -> DeathModel {
        DeathModel {
            msg: self.msg@,
            victim: self.victim@,
            killer: opt_bytes_view(self.killer),
            weapon: opt_bytes_view(self.weapon),
            is_pk: self.is_pk,
        }
    }
}

/// The looked-up text of a dotted key, or the key itself on a miss.
pub open spec fn spec_lookup_or_raw(t: LocTable, s: Seq<u8>) -> Seq<u8> {
    match dotted_lookup(t, s) {
        None => s,
        Some(v) => v,
    }
}

fn lookup_or_raw(s: &[u8], table: &LocTable) -> (v: Vec<u8>)
    ensures
        v@ == spec_lookup_or_raw(*table, s@),
{
    match lookup_string(s, table) {
        None => to_vec(s),
        Some(v) => v,
    }
}

/// `s` wrapped in the emphasis markup `**`.
pub open spec fn emphasize(s: Seq<u8>) -> Seq<u8> {
    ("**").spec_bytes() + s + ("**").spec_bytes()
}

fn emphasize_bytes(s: &[u8]) -> (v: Vec<u8>)
    ensures
        v@ == emphasize(s@),
{
    let mut v = to_vec("**".as_bytes());
    push_bytes(&mut v, s);
    push_bytes(&mut v, "**".as_bytes());
    assert(v@ =~= emphasize(s@));
    v
}

/// Decode of `n` flagged parameters of `d` starting at `off`: each is one
/// flag byte and one length-prefixed string, resolved as a localization
/// key when the flag is nonzero (falling back to the raw text).  Yields
/// the parameter texts and the offset after the last one.
pub open spec fn params_decode(t: LocTable, d: Seq<u8>, off: int, n: int) -> Option<
    (Seq<Seq<u8>>, int),
>
    decreases n,
{
    if n <= 0 {
        Some((Seq::empty(), off))
    } else if !(0 <= off < d.len()) {
        None
    } else {
        match spec_get_string(d, off + 1) {
            None => None,
            Some(s) => {
                let flag = d[off];
                let p = if flag == 0 {
                    s
                } else {
                    spec_lookup_or_raw(t, s)
                };
                match params_decode(t, d, off + d[off + 1] + 2, n - 1) {
                    None => None,
                    Some(rest) => Some((seq![p] + rest.0, rest.1)),
                }
            },
        }
    }
}

/// Reads `n` flagged parameters from the start of `data`.
pub fn get_params(data: &[u8], table: &LocTable, n: u8) -> (r: Option<(Vec<Vec<u8>>, usize)>)
    ensures
        match r {
            Some(p) => {
                &&& params_decode(*table, data@, 0, n as int) == Some((views(p.0@), p.1 as int))
                &&& p.0@.len() == n
                &&& p.1 <= data@.len()
            },
            None => params_decode(*table, data@, 0, n as int) is None,
        },
{
    let len = data.len();
    let mut params: Vec<Vec<u8>> = Vec::new();
    let mut offset: usize = 0;
    let mut j: u8 = 0;
    while j < n
        invariant
            j <= n,
            len == data@.len(),
            params@.len() == j,
            offset <= data@.len(),
            match params_decode(*table, data@, offset as int, n - j) {
                None => params_decode(*table, data@, 0, n as int) is None,
                Some(rest) => params_decode(*table, data@, 0, n as int) == Some(
                    (views(params@) + rest.0, rest.1),
                ),
            },
        decreases n - j,
    {
        if offset >= len {
            assert(params_decode(*table, data@, offset as int, n - j) is None);
            return None;
        }
        let s = match get_string(data, offset + 1) {
            None => {
                assert(params_decode(*table, data@, offset as int, n - j) is None);
                return None;
            },
            Some(s) => s,
        };
        let flag = data[offset];
        let p = if flag == 0 {
            to_vec(s)
        } else {
            lookup_or_raw(s, table)
        };
        proof {
            assert(params_decode(*table, data@, offset as int, n - j) == (
            match params_decode(*table, data@, offset + data@[offset + 1] + 2, n - j - 1) {
                None => None::<(Seq<Seq<u8>>, int)>,
                Some(rest) => Some((seq![p@] + rest.0, rest.1)),
            }));
        }
        params.push(p);
        proof {
            assert(views(params@) =~= views(params@.drop_last()) + seq![params@.last()@]);
            assert(forall|a: Seq<Seq<u8>>, b: Seq<Seq<u8>>, c: Seq<Seq<u8>>|
                (a + b) + c =~= a + (b + c));
        }
        offset = offset + s.len() + 2;
        j += 1;
    }
    proof {
        assert(params_decode(*table, data@, offset as int, 0) == Some(
            (Seq::<Seq<u8>>::empty(), offset as int),
        ));
        assert(views(params@) + Seq::<Seq<u8>>::empty() =~= views(params@));
    }
    Some((params, offset))
}

/// Decode of a sourced death (`DeathSource.*`): a template-base key, then
/// four parameters for a player kill and three otherwise; victim and
/// killer are emphasized in the assembled message.
pub open spec fn death_source_decode(t: LocTable, d: Seq<u8>, type_key: Seq<u8>) -> Result<
    DeathModel,
    MissingDeathData,
> {
    let base = spec_lookup_or_raw(t, type_key);
    match spec_get_string(d, 0) {
        None => Err(MissingDeathData::BaseString),
        Some(msg_base) => {
            if d[0] + 2 > d.len() {
                Err(MissingDeathData::Truncated)
            } else {
                let death_message = spec_lookup_or_raw(t, msg_base);
                let d3 = d.skip(d[0] + 2);
                let is_pk = type_key == ("DeathSource.Player").spec_bytes();
                let n: int = if is_pk {
                    4
                } else {
                    3
                };
                match params_decode(t, d3, 0, n) {
                    None => Err(MissingDeathData::Params),
                    Some(ps) => {
                        let params = ps.0;
                        let subbed = replace_first_spec(
                            replace_first_spec(death_message, placeholder(0), emphasize(params[0])),
                            placeholder(1),
                            params[1],
                        );
                        let fin0 = replace_first_spec(
                            replace_first_spec(base, placeholder(0), subbed),
                            placeholder(1),
                            emphasize(params[2]),
                        );
                        let fin = if n == 4 {
                            replace_first_spec(fin0, placeholder(2), params[3])
                        } else {
                            fin0
                        };
                        Ok(
                            DeathModel {
                                msg: fin,
                                victim: params[0],
                                killer: Some(params[2]),
                                weapon: if n == 4 {
                                    Some(params[3])
                                } else {
                                    None
                                },
                                is_pk: is_pk,
                            },
                        )
                    },
                }
            }
        },
    }
}

/// Assembles a sourced death from the bytes after the death-type key.
pub fn build_from_death_source(data: &[u8], base_lookup: &[u8], table: &LocTable) -> (r: Result<
    Death,
    MissingDeathData,
>)
    ensures
        match r {
            Ok(d) => death_source_decode(*table, data@, base_lookup@) == Ok::<DeathModel, MissingDeathData>(d@),
            Err(e) => death_source_decode(*table, data@, base_lookup@) == Err::<DeathModel, MissingDeathData>(e),
        },
{
    let base = lookup_or_raw(base_lookup, table);
    let msg_base = match get_string(data, 0) {
        None => {
            return Err(MissingDeathData::BaseString);
        },
        Some(s) => s,
    };
    let len = data.len();
    let l1 = data[0] as usize;
    if l1 + 2 > len {
        return Err(MissingDeathData::Truncated);
    }
    let death_message = lookup_or_raw(msg_base, table);
    let d3: &[u8] = &data[l1 + 2..len];
    let is_pk = bytes_eq(base_lookup, "DeathSource.Player".as_bytes());
    let nparams: u8 = if is_pk {
        4
    } else {
        3
    };
    let params = match get_params(d3, table, nparams) {
        None => {
            return Err(MissingDeathData::Params);
        },
        Some(p) => p.0,
    };
    let ph0 = make_placeholder(0);
    let ph1 = make_placeholder(1);
    let emph_victim = emphasize_bytes(params[0].as_slice());
    let step1 = replace_first(death_message.as_slice(), ph0.as_slice(), emph_victim.as_slice());
    let subbed = replace_first(step1.as_slice(), ph1.as_slice(), params[1].as_slice());
    let emph_killer = emphasize_bytes(params[2].as_slice());
    let step2 = replace_first(base.as_slice(), ph0.as_slice(), subbed.as_slice());
    let mut fin = replace_first(step2.as_slice(), ph1.as_slice(), emph_killer.as_slice());
    if nparams == 4 {
        let ph2 = make_placeholder(2);
        fin = replace_first(fin.as_slice(), ph2.as_slice(), params[3].as_slice());
    }
    let weapon: Option<Vec<u8>> = if nparams == 4 {
        Some(params[3].clone())
    } else {
        None
    };
    let death = Death {
        msg: fin,
        victim: params[0].clone(),
        killer: Some(params[2].clone()),
        weapon,
        is_pk,
    };
    proof {
        assert(views(params@)[0] == params@[0]@);
        assert(views(params@)[1] == params@[1]@);
        assert(views(params@)[2] == params@[2]@);
        if nparams == 4 {
            assert(views(params@)[3] == params@[3]@);
        }
    }
    Ok(death)
}

/// Decode of a causeless death (`DeathText.*`): the key's template with
/// the emphasized victim name at `{0}`.
pub open spec fn death_text_decode(t: LocTable, d: Seq<u8>, type_key: Seq<u8>) -> Result<
    DeathModel,
    MissingDeathData,
> {
    match spec_get_string(d, 0) {
        None => Err(MissingDeathData::NameString),
        Some(name) => Ok(
            DeathModel {
                msg: replace_first_spec(
                    spec_lookup_or_raw(t, type_key),
                    placeholder(0),
                    emphasize(name),
                ),
                victim: name,
                killer: None,
                weapon: None,
                is_pk: false,
            },
        ),
    }
}

/// Assembles a causeless death from the bytes after the death-type key.
pub fn build_from_death_text(data: &[u8], base_lookup: &[u8], table: &LocTable) -> (r: Result<
    Death,
    MissingDeathData,
>)
    ensures
        match r {
            Ok(d) => death_text_decode(*table, data@, base_lookup@) == Ok::<DeathModel, MissingDeathData>(d@),
            Err(e) => death_text_decode(*table, data@, base_lookup@) == Err::<DeathModel, MissingDeathData>(e),
        },
{
    let base = lookup_or_raw(base_lookup, table);
    let name = match get_string(data, 0) {
        None => {
            return Err(MissingDeathData::NameString);
        },
        Some(s) => s,
    };
    let ph0 = make_placeholder(0);
    let emph = emphasize_bytes(name);
    let msg = replace_first(base.as_slice(), ph0.as_slice(), emph.as_slice());
    Ok(Death { msg, victim: to_vec(name), killer: None, weapon: None, is_pk: false })
}

/// Decode of a whole death payload: the death-type key selects the
/// sourced or the causeless schema, both starting three bytes past the
/// key's end.
pub open spec fn death_decode(t: LocTable, d: Seq<u8>) -> Result<DeathModel, MissingDeathData> {
    match spec_get_string(d, 0) {
        None => Err(MissingDeathData::TypeString),
        Some(type_key) => {
            let l0 = d[0] as int;
            if is_prefix(("DeathSource.").spec_bytes(), type_key) {
                if l0 + 3 > d.len() {
                    Err(MissingDeathData::Truncated)
                } else {
                    death_source_decode(t, d.skip(l0 + 3), type_key)
                }
            } else if is_prefix(("DeathText.").spec_bytes(), type_key) {
                if l0 + 3 > d.len() {
                    Err(MissingDeathData::Truncated)
                } else {
                    death_text_decode(t, d.skip(l0 + 3), type_key)
                }
            } else {
                Err(MissingDeathData::UnknownCause)
            }
        },
    }
}

/// Assembles a death record from a death payload.
pub fn build_death(data: &[u8], table: &LocTable) -> (r: Result<Death, MissingDeathData>)
    ensures
        match r {
            Ok(d) => death_decode(*table, data@) == Ok::<DeathModel, MissingDeathData>(d@),
            Err(e) => death_decode(*table, data@) == Err::<DeathModel, MissingDeathData>(e),
        },
{
    let type_key = match get_string(data, 0) {
        None => {
            return Err(MissingDeathData::TypeString);
        },
        Some(s) => s,
    };
    let len = data.len();
    let l0 = data[0] as usize;
    if starts_with(type_key, "DeathSource.".as_bytes()) {
        if l0 + 3 > len {
            return Err(MissingDeathData::Truncated);
        }
        build_from_death_source(&data[l0 + 3..len], type_key, table)
    } else if starts_with(type_key, "DeathText.".as_bytes()) {
        if l0 + 3 > len {
            return Err(MissingDeathData::Truncated);
        }
        build_from_death_text(&data[l0 + 3..len], type_key, table)
    } else {
        Err(MissingDeathData::UnknownCause)
    }
}

/// Human-friendly elapsed time: seconds under two minutes, rounded whole
/// minutes under two hours, tenths of hours beyond.
pub open spec fn spec_friendly_duration(secs: int) -> Seq<u8> {
    if secs < 120 {
        dec_int(secs) + (" seconds").spec_bytes()
    } else if secs < 7200 {
        dec_int((secs + 30) / 60) + (" minutes").spec_bytes()
    } else {
        let tenths = (secs * 10 + 1800) / 3600;
        dec_int(tenths / 10) + seq![46u8] + dec_int(tenths % 10) + (" hours").spec_bytes()
    }
}

/// Renders an elapsed-seconds count as readable text.
pub fn friendly_duration(secs: i32) -> (out: Vec<u8>)
    ensures
        out@ == spec_friendly_duration(secs as int),
{
    if secs < 120 {
        let mut out = i64_to_dec(secs as i64);
        push_bytes(&mut out, " seconds".as_bytes());
        out
    } else if secs < 7200 {
        let m: u64 = ((secs as u64) + 30) / 60;
        let mut out = u64_to_dec(m);
        push_bytes(&mut out, " minutes".as_bytes());
        assert(m == (secs + 30) / 60);
        out
    } else {
        let tenths: u64 = ((secs as u64) * 10 + 1800) / 3600;
        assert(tenths == (secs * 10 + 1800) / 3600);
        let mut out = u64_to_dec(tenths / 10);
        out.push(46);
        let frac = u64_to_dec(tenths % 10);
        push_bytes(&mut out, frac.as_slice());
        push_bytes(&mut out, " hours".as_bytes());
        assert(out@ =~= dec_int((tenths / 10) as int) + seq![46u8] + dec_int((tenths % 10) as int)
            + (" hours").spec_bytes());
        assert(tenths / 10 == ((secs * 10 + 1800) / 3600) / 10 && tenths % 10 == ((secs * 10
            + 1800) / 3600) % 10);
        out
    }
}

/// A sourced death identified as a player kill always carries the killer
/// and the weapon, and is marked as a player kill.
pub proof fn lemma_player_kill_fields(t: LocTable, d: Seq<u8>, type_key: Seq<u8>, m: DeathModel)
    requires
        type_key == ("DeathSource.Player").spec_bytes(),
        death_source_decode(t, d, type_key) == Ok::<DeathModel, MissingDeathData>(m),
    ensures
        m.is_pk,
        m.killer is Some,
        m.weapon is Some,
{
}

/// A sourced death with any other cause carries a killer but never a
/// weapon, and is not a player kill.
pub proof fn lemma_non_player_no_weapon(t: LocTable, d: Seq<u8>, type_key: Seq<u8>, m: DeathModel)
    requires
        type_key != ("DeathSource.Player").spec_bytes(),
        death_source_decode(t, d, type_key) == Ok::<DeathModel, MissingDeathData>(m),
    ensures
        !m.is_pk,
        m.killer is Some,
        m.weapon is None,
{
}

/// A whole death payload whose type key is `DeathSource.Player` assembles
/// to a record marked as a player kill with killer and weapon present.
pub proof fn lemma_death_player_kill(t: LocTable, d: Seq<u8>, m: DeathModel)
    requires
        spec_get_string(d, 0) == Some(("DeathSource.Player").spec_bytes()),
        death_decode(t, d) == Ok::<DeathModel, MissingDeathData>(m),
    ensures
        m.is_pk,
        m.killer is Some,
        m.weapon is Some,
{
    reveal_strlit("DeathSource.Player");
    reveal_strlit("DeathSource.");
    let key = ("DeathSource.Player")@;
    let pre = ("DeathSource.")@;
    assert(vstd::string::is_ascii("DeathSource.Player")) by {
        assert(forall|i: int| 0 <= i < key.len() ==> (key[i] as u32) < 128);
    }
    assert(vstd::string::is_ascii("DeathSource.")) by {
        assert(forall|i: int| 0 <= i < pre.len() ==> (pre[i] as u32) < 128);
    }
    vstd::string::is_ascii_spec_bytes("DeathSource.Player");
    vstd::string::is_ascii_spec_bytes("DeathSource.");
    let kb = ("DeathSource.Player").spec_bytes();
    let pb = ("DeathSource.").spec_bytes();
    assert(kb.subrange(0, 12) =~= pb);
    assert(is_prefix(pb, kb));
    lemma_player_kill_fields(t, d.skip(d[0] + 3), kb, m);
}

} // verus!
