//! The request model: what one generation request holds, and its JSON wire
//! form.

use vstd::prelude::*;
use vstd::string::StringExecFns;

use crate::text::append_dec_u64;
use crate::text::append_json_escaped;
use crate::text::dec_digits;
use crate::text::digit_char;
use crate::text::digit_str;
use crate::text::json_escaped;

verus! {

/// A non-negative decimal number with three fractional digits, held as a
/// count of thousandths.  It stands in for the service's fractional
/// parameters (seconds of audio, prompt influence) as plain data; the
/// library stores and transmits it without interpreting its value.
#[derive(Clone, Copy, Debug, PartialEq, Eq, Structural)]
pub struct Decimal {
    pub thousandths: u64,
}

impl Decimal {
    /// The decimal value `thousandths / 1000`.
    pub fn from_thousandths(thousandths: u64) -> (r: Decimal)
        ensures
            r.thousandths == thousandths,
    {
        Decimal { thousandths }
    }
}

/// The decimal rendering `whole.fff` of a count of thousandths, with the
/// fractional part always three digits.
pub open spec fn decimal_digits(t: nat) -> Seq<char> {
    dec_digits(t / 1000) + seq![
        '.',
        digit_char((t % 1000) / 100),
        digit_char(((t % 1000) / 10) % 10),
        digit_char((t % 1000) % 10),
    ]
}

/// Appends the rendering `whole.fff` of a decimal value to `out`.
pub fn append_decimal(out: &mut String, d: Decimal)
    ensures
        final(out)@ == old(out)@ + decimal_digits(d.thousandths as nat),
{
    append_dec_u64(out, d.thousandths / 1000);
    out.append(".");
    let f: u64 = d.thousandths % 1000;
    out.append(digit_str(f / 100));
    out.append(digit_str((f / 10) % 10));
    out.append(digit_str(f % 10));
    proof {
        reveal_strlit(".");
        assert(out@ =~= old(out)@ + decimal_digits(d.thousandths as nat));
    }
}

/// The abstract content of one generation request: the prompt text and the
/// three optional parameters, as mathematical values.  It is the view both
/// of a builder in progress and of a finalized request.
pub struct RequestModel {
    pub text: Seq<char>,
    pub output_format: Option<Seq<char>>,
    pub duration_seconds: Option<Decimal>,
    pub prompt_influence: Option<Decimal>,
}

/// One finalized generation request, exactly as sent to the service.
#[derive(Debug, Clone)]
pub struct SFXRequest {
    pub text: String,
    pub output_format: Option<String>,
    pub duration_seconds: Option<Decimal>,
    pub prompt_influence: Option<Decimal>,
}

impl View for SFXRequest {
    type V = RequestModel;

    open spec fn view(&self) -> RequestModel {
        RequestModel {
            text: self.text@,
            output_format: match self.output_format {
                Option::Some(f) => Option::Some(f@),
                Option::None => Option::None,
            },
            duration_seconds: self.duration_seconds,
            prompt_influence: self.prompt_influence,
        }
    }
}

/// The JSON wire form of a request model: the prompt under `text`, then each
/// optional field that is present, in a fixed order.  An absent optional
/// field is omitted, not sent as null.
pub open spec fn json_body(m: RequestModel) -> Seq<char> {
    "{\"text\":\""@ + json_escaped(m.text) + "\""@ + (match m.output_format {
        Option::Some(f) => ",\"output_format\":\""@ + json_escaped(f) + "\""@,
        Option::None => Seq::<char>::empty(),
    }) + (match m.duration_seconds {
        Option::Some(d) => ",\"duration_seconds\":"@ + decimal_digits(d.thousandths as nat),
        Option::None => Seq::<char>::empty(),
    }) + (match m.prompt_influence {
        Option::Some(p) => ",\"prompt_influence\":"@ + decimal_digits(p.thousandths as nat),
        Option::None => Seq::<char>::empty(),
    }) + "}"@
}

impl SFXRequest {
    /// The JSON body for this request: exactly `json_body` of its model.
    pub fn to_json(&self) -> (r: String)
        ensures
            r@ == json_body(self@),
    {
        let mut out = String::from_str("{\"text\":\"");
        append_json_escaped(&mut out, self.text.as_str());
        out.append("\"");
        match &self.output_format {
            Option::Some(f) => {
                out.append(",\"output_format\":\"");
                append_json_escaped(&mut out, f.as_str());
                out.append("\"");
            },
            Option::None => {},
        }
        match &self.duration_seconds {
            Option::Some(d) => {
                out.append(",\"duration_seconds\":");
                append_decimal(&mut out, *d);
            },
            Option::None => {},
        }
        match &self.prompt_influence {
            Option::Some(p) => {
                out.append(",\"prompt_influence\":");
                append_decimal(&mut out, *p);
            },
            Option::None => {},
        }
        out.append("}");
        proof {
            assert(out@ =~= json_body(self@));
        }
        out
    }
}

} // verus!
