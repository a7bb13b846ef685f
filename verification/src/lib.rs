//! Client library for a remote sound-effects generation service.
//!
//! A caller describes the desired sound effect in natural language, adds
//! optional generation parameters through a fluent builder, and receives
//! either the raw generated audio bytes or a classified error.  The builder,
//! the wire payload, and the error taxonomy are verified; the network round
//! trip itself is left to an unverified shell around this crate, which hands
//! back the HTTP status and body for verified interpretation.

use vstd::prelude::*;

pub mod error;
pub mod text;
pub mod types;

pub use error::ElevenLabsSFXError;
pub use error::contains_seq;
pub use error::decoded_text;
pub use error::interpret_response;
pub use error::is_success_status;
pub use error::rendered;
pub use types::Decimal;
pub use types::RequestModel;
pub use types::SFXRequest;
pub use types::json_body;

verus! {

/// The default base endpoint URL.
pub open spec fn default_base_url() -> Seq<char> {
    "https://api.elevenlabs.io/v1"@
}

/// The default output format, substituted at finalization when none was
/// chosen.
pub open spec fn default_output_format() -> Seq<char> {
    "mp3_44100_128"@
}

/// A handle on the service: the API key and the base endpoint URL.  The
/// transport lives outside this crate; a client value is plain data that is
/// copied into every builder, so concurrent requests share no mutable state.
#[derive(Clone, Debug)]
pub struct ElevenLabsSFXClient {
    pub api_key: String,
    pub base_url: String,
}

impl ElevenLabsSFXClient {
    /// A client for the standard endpoint.
    pub fn new(api_key: String) -> (r: Self)
        ensures
            r.api_key@ == api_key@,
            r.base_url@ == default_base_url(),
    {
        ElevenLabsSFXClient {
            api_key,
            base_url: String::from_str("https://api.elevenlabs.io/v1"),
        }
    }

    /// A client for an alternate deployment of the service.
    pub fn with_base_url(api_key: String, base_url: String) -> (r: Self)
        ensures
            r.api_key@ == api_key@,
            r.base_url@ == base_url@,
    {
        ElevenLabsSFXClient { api_key, base_url }
    }

    /// Starts building a sound-effects request for the given prompt text.
    /// The builder owns its own copy of the client; nothing is shared.
    pub fn sound_effects(&self, text: String) -> (b: SoundEffectsBuilder)
        ensures
            b.client.api_key@ == self.api_key@,
            b.client.base_url@ == self.base_url@,
            b@ == fresh_model(text@),
    {
        SoundEffectsBuilder::new(
            ElevenLabsSFXClient {
                api_key: self.api_key.clone(),
                base_url: self.base_url.clone(),
            },
            text,
        )
    }

    /// The full URL of the sound-generation endpoint under this client's
    /// base URL.
    pub fn sound_generation_url(&self) -> (u: String)
        ensures
            u@ == self.base_url@ + "/sound-generation"@,
    {
        let mut out = self.base_url.clone();
        out.append("/sound-generation");
        out
    }
}

/// The model of a builder fresh from `sound_effects`: the prompt text, with
/// no optional parameter set.
pub open spec fn fresh_model(text: Seq<char>) -> RequestModel {
    RequestModel {
        text,
        output_format: Option::None,
        duration_seconds: Option::None,
        prompt_influence: Option::None,
    }
}

/// One call of an optional setter, as a value.
pub enum SetterOp {
    Format(Seq<char>),
    Duration(Decimal),
    Influence(Decimal),
}

/// The model after one setter call: the addressed field takes the new value
/// and the others stay.  Setting an already-set field overwrites it without
/// error.
pub open spec fn apply_op(m: RequestModel, op: SetterOp) -> RequestModel {
    match op {
        SetterOp::Format(f) => RequestModel { output_format: Option::Some(f), ..m },
        SetterOp::Duration(d) => RequestModel { duration_seconds: Option::Some(d), ..m },
        SetterOp::Influence(p) => RequestModel { prompt_influence: Option::Some(p), ..m },
    }
}

/// The model after a sequence of setter calls, applied first to last.
pub open spec fn apply_ops(m: RequestModel, ops: Seq<SetterOp>) -> RequestModel
    decreases ops.len(),
{
    if ops.len() == 0 {
        m
    } else {
        apply_op(apply_ops(m, ops.drop_last()), ops.last())
    }
}

/// The finalized request model: an unset output format falls back to the
/// default; the two other optional fields pass through, absent meaning the
/// service chooses.
pub open spec fn finalized_model(m: RequestModel) -> RequestModel {
    RequestModel {
        output_format: match m.output_format {
            Option::Some(f) => Option::Some(f),
            Option::None => Option::Some(default_output_format()),
        },
        ..m
    }
}

/// A single-use builder.  It owns a copy of the client and the prompt text,
/// and accumulates the optional parameters, unset until explicitly set.
/// Each setter consumes and returns the builder, so calls chain in any order
/// and any number; finalizing consumes it for good.
#[derive(Debug)]
pub struct SoundEffectsBuilder {
    pub client: ElevenLabsSFXClient,
    pub text: String,
    pub output_format: Option<String>,
    pub duration_seconds: Option<Decimal>,
    pub prompt_influence: Option<Decimal>,
}

impl View for SoundEffectsBuilder {
    type V = RequestModel;

    open spec fn view(&self) -> RequestModel {
        RequestModel {
            text: self.text@,
            output_format: match self.output_format {
                Option::Some(f) => Option::Some(f@),
                Option::None => Option::None,
            },
            duration_seconds: self.duration_seconds,
            prompt_influence: self.prompt_influence,
        }
    }
}

impl SoundEffectsBuilder {
    fn new(client: ElevenLabsSFXClient, text: String) -> (b: Self)
        ensures
            b.client == client,
            b@ == fresh_model(text@),
    {
        SoundEffectsBuilder {
            client,
            text,
            output_format: None,
            duration_seconds: None,
            prompt_influence: None,
        }
    }

    /// Chooses the output format; a later call replaces the value.
    pub fn output_format(self, output_format: String) -> (r: Self)
        ensures
            r@ == apply_op(self@, SetterOp::Format(output_format@)),
            r.client == self.client,
    {
        SoundEffectsBuilder {
            client: self.client,
            text: self.text,
            output_format: Some(output_format),
            duration_seconds: self.duration_seconds,
            prompt_influence: self.prompt_influence,
        }
    }

    /// Chooses the requested duration, in seconds; a later call replaces the
    /// value.  Left unset, the service infers a duration from the prompt.
    pub fn duration_seconds(self, duration_seconds: Decimal) -> (r: Self)
        ensures
            r@ == apply_op(self@, SetterOp::Duration(duration_seconds)),
            r.client == self.client,
    {
        SoundEffectsBuilder {
            client: self.client,
            text: self.text,
            output_format: self.output_format,
            duration_seconds: Some(duration_seconds),
            prompt_influence: self.prompt_influence,
        }
    }

    /// Chooses the prompt influence; a later call replaces the value.  Left
    /// unset, the service applies its own default.
    pub fn prompt_influence(self, prompt_influence: Decimal) -> (r: Self)
        ensures
            r@ == apply_op(self@, SetterOp::Influence(prompt_influence)),
            r.client == self.client,
    {
        SoundEffectsBuilder {
            client: self.client,
            text: self.text,
            output_format: self.output_format,
            duration_seconds: self.duration_seconds,
            prompt_influence: Some(prompt_influence),
        }
    }

    /// Finalizes the accumulated parameters into the immutable request and
    /// hands it back together with the owning client: the output format
    /// falls back to its default, the other optional fields pass through as
    /// they stand.  No network activity happens here or anywhere else in
    /// this crate; the caller performs the round trip and interprets the
    /// response with `interpret_response`.
    pub fn finalize(self) -> (r: (ElevenLabsSFXClient, SFXRequest))
        ensures
            r.0 == self.client,
            r.1@ == finalized_model(self@),
    {
        let output_format = match self.output_format {
            Some(f) => f,
            None => String::from_str("mp3_44100_128"),
        };
        let request = SFXRequest {
            text: self.text,
            output_format: Some(output_format),
            duration_seconds: self.duration_seconds,
            prompt_influence: self.prompt_influence,
        };
        (self.client, request)
    }
}

/// Law: a builder fresh from a prompt, finalized with no setter call in
/// between, yields the default output format and leaves the two other
/// optional fields absent, for every prompt text.
pub proof fn lemma_defaults_on_fresh_builder(text: Seq<char>)
    ensures
        finalized_model(fresh_model(text)).text == text,
        finalized_model(fresh_model(text)).output_format == Option::Some(default_output_format()),
        finalized_model(fresh_model(text)).duration_seconds is None,
        finalized_model(fresh_model(text)).prompt_influence is None,
{
}

/// The value carried by a format setter call.
pub open spec fn format_value(op: SetterOp) -> Seq<char> {
    match op {
        SetterOp::Format(f) => f,
        _ => arbitrary(),
    }
}

/// The value carried by a duration setter call.
pub open spec fn duration_value(op: SetterOp) -> Decimal {
    match op {
        SetterOp::Duration(d) => d,
        _ => arbitrary(),
    }
}

/// The value carried by an influence setter call.
pub open spec fn influence_value(op: SetterOp) -> Decimal {
    match op {
        SetterOp::Influence(p) => p,
        _ => arbitrary(),
    }
}

/// Law: over any sequence of setter calls, the last call that addresses the
/// output format wins, whatever the order and however often it was set.
pub proof fn lemma_last_format_wins(m: RequestModel, ops: Seq<SetterOp>, i: int)
    requires
        0 <= i < ops.len(),
        ops[i] is Format,
        forall|j: int| i < j < ops.len() ==> !(ops[j] is Format),
    ensures
        apply_ops(m, ops).output_format == Option::Some(format_value(ops[i])),
    decreases ops.len(),
{
    if i == ops.len() - 1 {
        assert(apply_ops(m, ops).output_format == Option::Some(format_value(ops[i])));
    } else {
        let rest = ops.drop_last();
        assert(forall|j: int| i < j < rest.len() ==> rest[j] == ops[j]);
        lemma_last_format_wins(m, rest, i);
        assert(!(ops.last() is Format));
    }
}

/// Law: over any sequence of setter calls, the last call that addresses the
/// duration wins, whatever the order and however often it was set.
pub proof fn lemma_last_duration_wins(m: RequestModel, ops: Seq<SetterOp>, i: int)
    requires
        0 <= i < ops.len(),
        ops[i] is Duration,
        forall|j: int| i < j < ops.len() ==> !(ops[j] is Duration),
    ensures
        apply_ops(m, ops).duration_seconds == Option::Some(duration_value(ops[i])),
    decreases ops.len(),
{
    if i == ops.len() - 1 {
        assert(apply_ops(m, ops).duration_seconds == Option::Some(duration_value(ops[i])));
    } else {
        let rest = ops.drop_last();
        assert(forall|j: int| i < j < rest.len() ==> rest[j] == ops[j]);
        lemma_last_duration_wins(m, rest, i);
        assert(!(ops.last() is Duration));
    }
}

/// Law: over any sequence of setter calls, the last call that addresses the
/// prompt influence wins, whatever the order and however often it was set.
pub proof fn lemma_last_influence_wins(m: RequestModel, ops: Seq<SetterOp>, i: int)
    requires
        0 <= i < ops.len(),
        ops[i] is Influence,
        forall|j: int| i < j < ops.len() ==> !(ops[j] is Influence),
    ensures
        apply_ops(m, ops).prompt_influence == Option::Some(influence_value(ops[i])),
    decreases ops.len(),
{
    if i == ops.len() - 1 {
        assert(apply_ops(m, ops).prompt_influence == Option::Some(influence_value(ops[i])));
    } else {
        let rest = ops.drop_last();
        assert(forall|j: int| i < j < rest.len() ==> rest[j] == ops[j]);
        lemma_last_influence_wins(m, rest, i);
        assert(!(ops.last() is Influence));
    }
}

/// Law: no setter call touches the prompt text, so any sequence of them
/// leaves the text as given.
pub proof fn lemma_setters_keep_text(m: RequestModel, ops: Seq<SetterOp>)
    ensures
        apply_ops(m, ops).text == m.text,
    decreases ops.len(),
{
    if ops.len() > 0 {
        lemma_setters_keep_text(m, ops.drop_last());
    }
}

} // verus!
