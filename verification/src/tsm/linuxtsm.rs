//! The Linux configfs-tsm report builder.
//!
//! Creating a report instance is a directory under
//! [`TSM_REPORT_PATH`]; the builder records the attributes to set, and the
//! report is obtained by writing them (each write must be confirmed by the
//! TSM's generation counter) and then reading the blobs.  The application
//! performs the file operations; this module decides what to write and read
//! and what the outcomes mean.
use vstd::prelude::*;
use vstd::utf8::{decode_utf8, encode_utf8, valid_utf8};
use super::{TsmError, TsmReport};
use crate::text::{concat3, decimal, owned, trim_end, trim_end_string, u32_to_decimal};

verus! {

/// The configfs directory under which report instances are created.
pub const TSM_REPORT_PATH: &'static str = "/sys/kernel/config/tsm/report";

/// Checks that the TSM generation counter matches the number of writes made
/// to the report instance: a mismatch means another writer raced ours.
pub fn generation_err(exp: u32, got: u32) -> (r: Result<(), TsmError>)
    ensures
        exp == got <==> r is Ok,
        exp != got ==> r == Err::<(), TsmError>(TsmError::GenerationError { exp, got }),
{
    if exp != got {
        Err(TsmError::GenerationError { exp, got })
    } else {
        Ok(())
    }
}

// ---------------------------------------------------------------------------
// Reading attributes
// ---------------------------------------------------------------------------

/// `String::from_utf8`: succeeds exactly for valid UTF-8, with the decoded
/// characters.
#[verifier::external_body]
fn string_from_utf8(bytes: Vec<u8>) -> (r: Result<String, std::string::FromUtf8Error>)
    ensures
        r is Ok <==> valid_utf8(bytes@),
        r matches Ok(s) ==> s@ == decode_utf8(bytes@),
{
    String::from_utf8(bytes)
}

/// The value of the decimal digits `s`.
pub open spec fn digits_value(s: Seq<char>) -> nat
    decreases s.len(),
{
    if s.len() == 0 {
        0
    } else {
        digits_value(s.drop_last()) * 10 + ((s.last() as u32) - 48) as nat
    }
}

/// What `str::parse::<u32>` gives: an optional `+` followed by at least one
/// ASCII digit, with a value that fits in a `u32`.
pub open spec fn parse_u32(s: Seq<char>) -> Option<u32> {
    let d = if s.len() > 0 && s[0] == '+' {
        s.drop_first()
    } else {
        s
    };
    if d.len() > 0 && (forall|i: int| 0 <= i < d.len() ==> '0' <= #[trigger] d[i] <= '9')
        && digits_value(d) <= u32::MAX {
        Some(digits_value(d) as u32)
    } else {
        None
    }
}

/// `str::parse::<u32>`.
#[verifier::external_body]
fn str_parse_u32(s: &str) -> (r: Result<u32, std::num::ParseIntError>)
    ensures
        r is Ok <==> parse_u32(s@) is Some,
        r matches Ok(v) ==> parse_u32(s@) == Some(v),
{
    s.parse::<u32>()
}

/// The text of an attribute file: its bytes decoded as UTF-8, trailing
/// white space removed; `None` for invalid UTF-8.
pub open spec fn attribute_text(raw: Seq<u8>) -> Option<Seq<char>> {
    if valid_utf8(raw) {
        Some(trim_end(decode_utf8(raw)))
    } else {
        None
    }
}

/// `"<prefix>\"<file>\"<suffix>"`, the way the contexts quote file names.
pub open spec fn quoted(prefix: Seq<char>, file: Seq<char>, suffix: Seq<char>) -> Seq<char> {
    prefix + "\""@ + file + "\""@ + suffix
}

fn quote(prefix: &str, file: &str, suffix: &str) -> (r: String)
    ensures
        r@ == quoted(prefix@, file@, suffix@),
{
    let mut r = owned(prefix);
    r.append("\"");
    r.append(file);
    r.append("\"");
    r.append(suffix);
    r
}

// ---------------------------------------------------------------------------
// The builder
// ---------------------------------------------------------------------------

/// A report instance under configfs-tsm and the attributes to set on it.
#[derive(Debug)]
pub struct LinuxTsmReportBuilder {
    provider: String,
    privlevel_floor: u32,
    inblob: Vec<u8>,
    privlevel: Option<u32>,
    service_provider: Option<String>,
    service_guid: Option<[u8; 16]>,
    num_writes: u32,
    path: String,
}

/// An attribute write: the file name and the bytes written.
pub open spec fn write_view(w: (String, Vec<u8>)) -> (Seq<char>, Seq<u8>) {
    (w.0@, w.1@)
}

/// The attribute writes that a report needs, in order: `privlevel` (in
/// decimal), `service_provider` and `service_guid` when they are set, and
/// always `inblob` last.
pub open spec fn attribute_writes(
    privlevel: Option<u32>,
    service_provider: Option<Seq<char>>,
    service_guid: Option<Seq<u8>>,
    inblob: Seq<u8>,
) -> Seq<(Seq<char>, Seq<u8>)> {
    (match privlevel {
        Some(l) => seq![("privlevel"@, encode_utf8(decimal(l as nat)))],
        None => seq![],
    }) + (match service_provider {
        Some(s) => seq![("service_provider"@, encode_utf8(s))],
        None => seq![],
    }) + (match service_guid {
        Some(g) => seq![("service_guid"@, g)],
        None => seq![],
    }) + seq![("inblob"@, inblob)]
}

impl LinuxTsmReportBuilder {
    /// The directory of the report instance.
    pub closed spec fn spec_path(&self) -> Seq<char> {
        self.path@
    }

    /// The writes made to the instance so far.
    pub closed spec fn spec_num_writes(&self) -> u32 {
        self.num_writes
    }

    /// The provider attribute read when the instance was created.
    pub closed spec fn spec_provider(&self) -> Seq<char> {
        self.provider@
    }

    /// The privlevel_floor attribute read when the instance was created.
    pub closed spec fn spec_privlevel_floor(&self) -> u32 {
        self.privlevel_floor
    }

    /// The privilege level to set, if any.
    pub closed spec fn spec_privlevel(&self) -> Option<u32> {
        self.privlevel
    }

    /// The service provider to set, if any.
    pub closed spec fn spec_service_provider(&self) -> Option<Seq<char>> {
        match self.service_provider {
            Some(s) => Some(s@),
            None => None,
        }
    }

    /// The service GUID to set, if any.
    pub closed spec fn spec_service_guid(&self) -> Option<Seq<u8>> {
        match self.service_guid {
            Some(g) => Some(g@),
            None => None,
        }
    }

    /// The inblob to write.
    pub closed spec fn spec_inblob(&self) -> Seq<u8> {
        self.inblob@
    }

    /// The attribute writes that the report needs, in order.
    pub open spec fn spec_writes(&self) -> Seq<(Seq<char>, Seq<u8>)> {
        attribute_writes(
            self.spec_privlevel(),
            self.spec_service_provider(),
            self.spec_service_guid(),
            self.spec_inblob(),
        )
    }

    /// The outcome of reading the attribute `file` as a string: an I/O failure
    /// or invalid UTF-8 is an error carrying the context that names the file.
    /// An optional attribute (`opt`) whose file does not exist (`exists` is
    /// false) reads as the empty string, and `raw` is not looked at; for an
    /// attribute that is not optional, `exists` is not looked at and `raw` is
    /// what reading the file gave.
    pub fn read_to_string(
        file: &str,
        opt: bool,
        exists: bool,
        raw: Result<Vec<u8>, std::io::Error>,
    ) -> (r: Result<String, TsmError>)
        ensures
            opt && !exists ==> (r matches Ok(s) && s@.len() == 0),
            !(opt && !exists) ==> match raw {
                Err(e) => r matches Err(TsmError::IOError { context, source }) && context@ == quoted(
                    "failed to read from "@,
                    file@,
                    ""@,
                ) && source == e,
                Ok(b) => match attribute_text(b@) {
                    Some(t) => r matches Ok(s) && s@ == t,
                    None => r matches Err(TsmError::BytesToStringError { context, .. }) && context@
                        == quoted("failed to read "@, file@, " as string"@),
                },
            },
    {
        if opt && !exists {
            return Ok(String::new());
        }
        match raw {
            Err(e) => Err(TsmError::IOError { context: quote("failed to read from ", file, ""), source: e }),
            Ok(b) => match string_from_utf8(b) {
                Ok(s) => Ok(trim_end_string(&s)),
                Err(e) => Err(
                    TsmError::BytesToStringError {
                        context: quote("failed to read ", file, " as string"),
                        source: e,
                    },
                ),
            },
        }
    }

    /// The outcome of reading the attribute `file` as an integer.
    pub fn read_to_int(file: &str, raw: Result<Vec<u8>, std::io::Error>) -> (r: Result<u32, TsmError>)
        ensures
            raw matches Err(e) ==> (r matches Err(TsmError::IOError { context, source }) && context@
                == quoted("failed to read from "@, file@, ""@) && source == e),
            raw matches Ok(b) ==> match attribute_text(b@) {
                None => r matches Err(TsmError::BytesToStringError { context, .. }) && context@
                    == quoted("failed to read "@, file@, " as string"@),
                Some(t) => match parse_u32(t) {
                    Some(v) => r == Ok::<u32, TsmError>(v),
                    None => r matches Err(TsmError::StringToIntError { context, .. }) && context@
                        == "failed to convert "@ + file@ + " to integer"@,
                },
            },
    {
        let s = match Self::read_to_string(file, false, true, raw) {
            Ok(s) => s,
            Err(e) => return Err(e),
        };
        match str_parse_u32(s.as_str()) {
            Ok(v) => Ok(v),
            Err(e) => Err(
                TsmError::StringToIntError {
                    context: concat3("failed to convert ", file, " to integer"),
                    source: e,
                },
            ),
        }
    }

    /// The outcome of reading the TSM's `generation` counter.
    pub fn generation(raw: Result<Vec<u8>, std::io::Error>) -> (r: Result<u32, TsmError>)
        ensures
            raw matches Err(e) ==> (r matches Err(TsmError::IOError { context, source }) && context@
                == quoted("failed to read from "@, "generation"@, ""@) && source == e),
            raw matches Ok(b) ==> match attribute_text(b@) {
                None => r matches Err(TsmError::BytesToStringError { context, .. }) && context@
                    == quoted("failed to read "@, "generation"@, " as string"@),
                Some(t) => match parse_u32(t) {
                    Some(v) => r == Ok::<u32, TsmError>(v),
                    None => r matches Err(TsmError::StringToIntError { context, .. }) && context@
                        == "failed to convert generation to integer"@,
                },
            },
    {
        proof {
            reveal_strlit("generation");
            reveal_strlit("failed to convert ");
            reveal_strlit(" to integer");
            reveal_strlit("failed to convert generation to integer");
            assert("failed to convert "@ + "generation"@ + " to integer"@
                =~= "failed to convert generation to integer"@);
        }
        Self::read_to_int("generation", raw)
    }

    /// The builder for the instance at `path`, from what reading its
    /// `provider` and `privlevel_floor` attributes gave.
    pub fn from_instance(
        path: String,
        provider: Result<Vec<u8>, std::io::Error>,
        privlevel_floor: Result<Vec<u8>, std::io::Error>,
    ) -> (r: Result<Self, TsmError>)
        ensures
            r matches Ok(b) ==> {
                &&& b.spec_path() == path@
                &&& b.spec_num_writes() == 0
                &&& provider matches Ok(p) && attribute_text(p@) == Some(b.spec_provider())
                &&& privlevel_floor matches Ok(f) && attribute_text(f@) matches Some(t)
                    && parse_u32(t) == Some(b.spec_privlevel_floor())
                &&& b.spec_writes() == seq![("inblob"@, Seq::<u8>::empty())]
            },
            r is Ok <==> (provider matches Ok(p) && attribute_text(p@) is Some)
                && (privlevel_floor matches Ok(f) && attribute_text(f@) matches Some(t) && parse_u32(
                t,
            ) is Some),
            provider matches Err(e) ==> (r matches Err(TsmError::IOError { context, source })
                && context@ == quoted("failed to read from "@, "provider"@, ""@) && source == e),
            provider matches Ok(p) && attribute_text(p@) is None ==> (r matches Err(
                TsmError::BytesToStringError { context, .. },
            ) && context@ == quoted("failed to read "@, "provider"@, " as string"@)),
            (provider matches Ok(p) && attribute_text(p@) is Some) ==> match privlevel_floor {
                Err(e) => r matches Err(TsmError::IOError { context, source }) && context@ == quoted(
                    "failed to read from "@,
                    "privlevel_floor"@,
                    ""@,
                ) && source == e,
                Ok(f) => match attribute_text(f@) {
                    None => r matches Err(TsmError::BytesToStringError { context, .. }) && context@
                        == quoted("failed to read "@, "privlevel_floor"@, " as string"@),
                    Some(t) => parse_u32(t) is None ==> (r matches Err(
                        TsmError::StringToIntError { context, .. },
                    ) && context@ == "failed to convert privlevel_floor to integer"@),
                },
            },
    {
        proof {
            reveal_strlit("privlevel_floor");
            reveal_strlit("failed to convert ");
            reveal_strlit(" to integer");
            reveal_strlit("failed to convert privlevel_floor to integer");
            assert("failed to convert "@ + "privlevel_floor"@ + " to integer"@
                =~= "failed to convert privlevel_floor to integer"@);
        }
        let provider = match Self::read_to_string("provider", false, true, provider) {
            Ok(s) => s,
            Err(e) => return Err(e),
        };
        let privlevel_floor = match Self::read_to_int("privlevel_floor", privlevel_floor) {
            Ok(v) => v,
            Err(e) => return Err(e),
        };
        let b = LinuxTsmReportBuilder {
            provider,
            privlevel_floor,
            inblob: Vec::new(),
            privlevel: None,
            service_provider: None,
            service_guid: None,
            num_writes: 0,
            path,
        };
        assert(b.spec_writes() =~= seq![("inblob"@, Seq::<u8>::empty())]);
        Ok(b)
    }

    /// The directory of the report instance.
    pub fn path(&self) -> (r: &str)
        ensures
            r@ == self.spec_path(),
    {
        self.path.as_str()
    }

    /// The number of attribute writes recorded so far.
    pub fn num_writes(&self) -> (r: u32)
        ensures
            r == self.spec_num_writes(),
    {
        self.num_writes
    }

    /// get the provider attribute
    pub fn provider(&self) -> (r: String)
        ensures
            r@ == self.spec_provider(),
    {
        self.provider.clone()
    }

    /// get the privlevel_floor attribute
    pub fn privlevel_floor(&self) -> (r: u32)
        ensures
            r == self.spec_privlevel_floor(),
    {
        self.privlevel_floor
    }

    /// set inblob
    pub fn inblob(self, blob: Vec<u8>) -> (r: Self)
        ensures
            r.spec_inblob() == blob@,
            r.spec_privlevel() == self.spec_privlevel(),
            r.spec_service_provider() == self.spec_service_provider(),
            r.spec_service_guid() == self.spec_service_guid(),
            r.spec_num_writes() == self.spec_num_writes(),
            r.spec_path() == self.spec_path(),
            r.spec_provider() == self.spec_provider(),
            r.spec_privlevel_floor() == self.spec_privlevel_floor(),
    {
        LinuxTsmReportBuilder { inblob: blob, ..self }
    }

    /// set privlevel
    pub fn privlevel(self, lev: u32) -> (r: Self)
        ensures
            r.spec_privlevel() == Some(lev),
            r.spec_inblob() == self.spec_inblob(),
            r.spec_service_provider() == self.spec_service_provider(),
            r.spec_service_guid() == self.spec_service_guid(),
            r.spec_num_writes() == self.spec_num_writes(),
            r.spec_path() == self.spec_path(),
            r.spec_provider() == self.spec_provider(),
            r.spec_privlevel_floor() == self.spec_privlevel_floor(),
    {
        LinuxTsmReportBuilder { privlevel: Some(lev), ..self }
    }

    /// set service_provider
    pub fn service_provider(self, provider: String) -> (r: Self)
        ensures
            r.spec_service_provider() == Some(provider@),
            r.spec_inblob() == self.spec_inblob(),
            r.spec_privlevel() == self.spec_privlevel(),
            r.spec_service_guid() == self.spec_service_guid(),
            r.spec_num_writes() == self.spec_num_writes(),
            r.spec_path() == self.spec_path(),
            r.spec_provider() == self.spec_provider(),
            r.spec_privlevel_floor() == self.spec_privlevel_floor(),
    {
        LinuxTsmReportBuilder { service_provider: Some(provider), ..self }
    }

    /// set service_guid
    pub fn service_guid(self, guid: [u8; 16]) -> (r: Self)
        ensures
            r.spec_service_guid() == Some(guid@),
            r.spec_inblob() == self.spec_inblob(),
            r.spec_privlevel() == self.spec_privlevel(),
            r.spec_service_provider() == self.spec_service_provider(),
            r.spec_num_writes() == self.spec_num_writes(),
            r.spec_path() == self.spec_path(),
            r.spec_provider() == self.spec_provider(),
            r.spec_privlevel_floor() == self.spec_privlevel_floor(),
    {
        LinuxTsmReportBuilder { service_guid: Some(guid), ..self }
    }

    /// The attribute writes that the report needs, in order.
    pub fn writes(&self) -> (r: Vec<(String, Vec<u8>)>)
        ensures
            r@.map_values(|w: (String, Vec<u8>)| write_view(w)) == self.spec_writes(),
    {
        let mut r: Vec<(String, Vec<u8>)> = Vec::new();
        let ghost s1: Seq<(Seq<char>, Seq<u8>)> = match self.spec_privlevel() {
            Some(l) => seq![("privlevel"@, encode_utf8(decimal(l as nat)))],
            None => seq![],
        };
        let ghost s2: Seq<(Seq<char>, Seq<u8>)> = match self.spec_service_provider() {
            Some(t) => seq![("service_provider"@, encode_utf8(t))],
            None => seq![],
        };
        let ghost s3: Seq<(Seq<char>, Seq<u8>)> = match self.spec_service_guid() {
            Some(g) => seq![("service_guid"@, g)],
            None => seq![],
        };
        if let Some(l) = self.privlevel {
            let d = u32_to_decimal(l);
            r.push((owned("privlevel"), vstd::slice::slice_to_vec(d.as_str().as_bytes())));
        }
        assert(r@.map_values(|w: (String, Vec<u8>)| write_view(w)) =~= s1);
        if let Some(s) = &self.service_provider {
            r.push((owned("service_provider"), vstd::slice::slice_to_vec(s.as_str().as_bytes())));
        }
        assert(r@.map_values(|w: (String, Vec<u8>)| write_view(w)) =~= s1 + s2);
        if let Some(g) = &self.service_guid {
            r.push((owned("service_guid"), vstd::slice::slice_to_vec(g.as_slice())));
        }
        assert(r@.map_values(|w: (String, Vec<u8>)| write_view(w)) =~= s1 + s2 + s3);
        r.push((owned("inblob"), vstd::slice::slice_to_vec(self.inblob.as_slice())));
        assert(r@.map_values(|w: (String, Vec<u8>)| write_view(w)) =~= self.spec_writes());
        r
    }

    /// Records the outcome of writing `file`: a failure is an error naming
    /// the file; a success counts as one more write.
    pub fn record_write(&mut self, file: &str, result: Result<(), std::io::Error>) -> (r: Result<
        (),
        TsmError,
    >)
        requires
            result is Ok ==> old(self).spec_num_writes() < u32::MAX,
        ensures
            final(self).spec_path() == old(self).spec_path(),
            final(self).spec_writes() == old(self).spec_writes(),
            match result {
                Ok(()) => r is Ok && final(self).spec_num_writes() == old(self).spec_num_writes()
                    + 1,
                Err(e) => r matches Err(TsmError::IOError { context, source }) && context@
                    == quoted("failed to write to "@, file@, ""@) && source == e
                    && final(self).spec_num_writes() == old(self).spec_num_writes(),
            },
    {
        match result {
            Ok(()) => {
                self.num_writes = self.num_writes + 1;
                Ok(())
            },
            Err(e) => Err(
                TsmError::IOError { context: quote("failed to write to ", file, ""), source: e },
            ),
        }
    }

    /// Checks what reading the `generation` attribute gave after a write:
    /// the counter must equal the number of writes made.
    pub fn check_generation(&self, generation: Result<Vec<u8>, std::io::Error>) -> (r: Result<
        (),
        TsmError,
    >)
        ensures
            generation matches Err(e) ==> (r matches Err(TsmError::IOError { context, source })
                && context@ == quoted("failed to read from "@, "generation"@, ""@) && source == e),
            generation matches Ok(b) ==> match attribute_text(b@) {
                None => r matches Err(TsmError::BytesToStringError { context, .. }) && context@
                    == quoted("failed to read "@, "generation"@, " as string"@),
                Some(t) => match parse_u32(t) {
                    None => r matches Err(TsmError::StringToIntError { context, .. }) && context@
                        == "failed to convert generation to integer"@,
                    Some(g) => (r is Ok <==> g == self.spec_num_writes()) && (g
                        != self.spec_num_writes() ==> r == Err::<(), TsmError>(
                        TsmError::GenerationError { exp: self.spec_num_writes(), got: g },
                    )),
                },
            },
    {
        let got = match Self::generation(generation) {
            Ok(v) => v,
            Err(e) => return Err(e),
        };
        generation_err(self.num_writes, got)
    }
}

/// The report from what reading the blobs gave: `outblob` must be there;
/// an absent `auxblob` or `manifestblob` (`None`) is empty.
pub fn assemble_report(
    outblob: Result<Vec<u8>, std::io::Error>,
    auxblob: Result<Option<Vec<u8>>, std::io::Error>,
    manifestblob: Result<Option<Vec<u8>>, std::io::Error>,
) -> (r: Result<TsmReport, TsmError>)
    ensures
        r is Ok <==> outblob is Ok && auxblob is Ok && manifestblob is Ok,
        r matches Ok(rep) ==> {
            &&& outblob matches Ok(o) && rep.outblob@ == o@
            &&& auxblob matches Ok(a) && rep.auxblob@ == match a {
                Some(x) => x@,
                None => Seq::empty(),
            }
            &&& manifestblob matches Ok(m) && rep.manifestblob@ == match m {
                Some(x) => x@,
                None => Seq::empty(),
            }
        },
        outblob matches Err(e) ==> (r matches Err(TsmError::IOError { context, source })
            && context@ == quoted("failed to read from "@, "outblob"@, ""@) && source == e),
        outblob is Ok ==> (auxblob matches Err(e) ==> (r matches Err(
            TsmError::IOError { context, source },
        ) && context@ == quoted("failed to read from "@, "auxblob"@, ""@) && source == e)),
        outblob is Ok && auxblob is Ok ==> (manifestblob matches Err(e) ==> (r matches Err(
            TsmError::IOError { context, source },
        ) && context@ == quoted("failed to read from "@, "manifestblob"@, ""@) && source == e)),
{
    let outblob = match outblob {
        Ok(b) => b,
        Err(e) => return Err(
            TsmError::IOError { context: quote("failed to read from ", "outblob", ""), source: e },
        ),
    };
    let auxblob = match auxblob {
        Ok(Some(b)) => b,
        Ok(None) => Vec::new(),
        Err(e) => return Err(
            TsmError::IOError { context: quote("failed to read from ", "auxblob", ""), source: e },
        ),
    };
    let manifestblob = match manifestblob {
        Ok(Some(b)) => b,
        Ok(None) => Vec::new(),
        Err(e) => return Err(
            TsmError::IOError {
                context: quote("failed to read from ", "manifestblob", ""),
                source: e,
            },
        ),
    };
    Ok(TsmReport { outblob, auxblob, manifestblob })
}

} // verus!
