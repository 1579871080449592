//! A client library for the Assuan line protocol spoken by `pinentry`
//! helper programs: request encoding, response parsing, response
//! aggregation and error classification, together with the dialog
//! configuration that drives them.

use vstd::prelude::*;
use vstd::string::StringExecFns;

pub mod cycle;
pub mod data;
pub mod decimal;
pub mod encode;
pub mod error;
pub mod response;
pub mod secret;
pub mod unix;

pub use error::Error;
pub use error::GpgError;

verus! {

/// Result type for the `pinentry` crate.
pub type Result<T> = std::result::Result<T, Error>;

/// The standard library's owned filesystem path, carried through unread.
#[verifier::external_type_specification]
#[verifier::external_body]
pub struct ExPathBuf(std::path::PathBuf);

/// Relies on `which::which`: searches the executable search path for the
/// named binary. What it finds depends on the machine, so nothing is
/// claimed of the result.
#[verifier::external_body]
fn which_binary(name: &str) -> Option<std::path::PathBuf> {
    which::which(name).ok()
}

/// One request of a dialog's configuration sequence.
#[derive(Debug)]
pub struct Request {
    /// The command keyword.
    pub command: String,
    /// The parameter text, if the command takes one.
    pub parameters: Option<String>,
}

/// The mathematical form of one request.
pub struct SpecRequest {
    /// The command keyword.
    pub command: Seq<char>,
    /// The parameter text, if any.
    pub parameters: Option<Seq<char>>,
}

impl DeepView for Request {
    type V = SpecRequest;

    open spec fn deep_view(&self) -> SpecRequest {
        SpecRequest { command: self.command.deep_view(), parameters: self.parameters.deep_view() }
    }
}

/// A request with the given command and parameter.
pub open spec fn spec_req(command: Seq<char>, parameter: Seq<char>) -> SpecRequest {
    SpecRequest { command, parameters: Some(parameter) }
}

/// Appends one request with the given command and parameter.
fn push_req(v: &mut Vec<Request>, command: &str, parameter: String)
    ensures
        final(v).deep_view() == old(v).deep_view().push(spec_req(command@, parameter@)),
{
    let ghost before = v.deep_view();
    let ghost p = parameter@;
    v.push(Request { command: String::from_str(command), parameters: Some(parameter) });
    proof {
        assert(v.deep_view() =~= before.push(spec_req(command@, p)));
    }
}

/// Appends one request when a parameter is configured, and nothing when it
/// is not.
fn push_opt_req(v: &mut Vec<Request>, command: &str, parameter: Option<String>)
    ensures
        final(v).deep_view() == old(v).deep_view() + (match parameter {
            Some(t) => seq![spec_req(command@, t@)],
            None => Seq::empty(),
        }),
{
    let ghost before = v.deep_view();
    match parameter {
        Some(p) => {
            let ghost pv = p@;
            push_req(v, command, p);
            proof {
                assert(before.push(spec_req(command@, pv)) =~= before + seq![
                    spec_req(command@, pv),
                ]);
            }
        },
        None => {
            proof {
                assert(before + Seq::<SpecRequest>::empty() =~= before);
            }
        },
    }
}

/// A dialog for requesting a passphrase from the user.
pub struct PassphraseInput<'a> {
    binary: std::path::PathBuf,
    title: Option<&'a str>,
    description: Option<&'a str>,
    error: Option<&'a str>,
    prompt: Option<&'a str>,
    confirmation: Option<(&'a str, &'a str)>,
    ok: Option<&'a str>,
    cancel: Option<&'a str>,
    timeout: Option<u16>,
}

impl<'a> PassphraseInput<'a> {
    /// The configured window title, if any.
    pub closed spec fn spec_title(&self) -> Option<Seq<char>> {
        self.title.deep_view()
    }

    /// The configured descriptive text, if any.
    pub closed spec fn spec_description(&self) -> Option<Seq<char>> {
        self.description.deep_view()
    }

    /// The configured error text, if any.
    pub closed spec fn spec_error(&self) -> Option<Seq<char>> {
        self.error.deep_view()
    }

    /// The configured prompt, if any.
    pub closed spec fn spec_prompt(&self) -> Option<Seq<char>> {
        self.prompt.deep_view()
    }

    /// The configured confirmation prompt and mismatch error, if any.
    pub closed spec fn spec_confirmation(&self) -> Option<(Seq<char>, Seq<char>)> {
        self.confirmation.deep_view()
    }

    /// The configured text of the "OK" button, if any.
    pub closed spec fn spec_ok(&self) -> Option<Seq<char>> {
        self.ok.deep_view()
    }

    /// The configured text of the "Cancel" button, if any.
    pub closed spec fn spec_cancel(&self) -> Option<Seq<char>> {
        self.cancel.deep_view()
    }

    /// The configured timeout in seconds, if any.
    pub closed spec fn spec_timeout(&self) -> Option<u16> {
        self.timeout
    }

    /// Whether nothing has been configured yet.
    pub open spec fn spec_is_fresh(&self) -> bool {
        &&& self.spec_title() is None
        &&& self.spec_description() is None
        &&& self.spec_error() is None
        &&& self.spec_prompt() is None
        &&& self.spec_confirmation() is None
        &&& self.spec_ok() is None
        &&& self.spec_cancel() is None
        &&& self.spec_timeout() is None
    }

    /// Creates a new dialog using the binary named `pinentry`.
    ///
    /// Returns `None` if `pinentry` cannot be found in the executable
    /// search path.
    pub fn with_default_binary() -> (r: Option<Self>)
        ensures
            r matches Some(p) ==> p.spec_is_fresh(),
    {
        Self::with_binary("pinentry")
    }

    /// Creates a new dialog using the given path to, or name of, a
    /// `pinentry` binary.
    ///
    /// Returns `None` if:
    /// - A path was provided that does not exist.
    /// - A binary name was provided that cannot be found in the executable
    ///   search path.
    /// - The binary is found but is not executable.
    pub fn with_binary(binary_name: &str) -> (r: Option<Self>)
        ensures
            r matches Some(p) ==> p.spec_is_fresh(),
    {
        match which_binary(binary_name) {
            Some(binary) => Some(
                PassphraseInput {
                    binary,
                    title: None,
                    description: None,
                    error: None,
                    prompt: None,
                    confirmation: None,
                    ok: None,
                    cancel: None,
                    timeout: None,
                },
            ),
            None => None,
        }
    }

    /// The resolved path of the helper binary to spawn.
    pub fn binary_path(&self) -> &std::path::PathBuf {
        &self.binary
    }

    /// Sets the window title.
    ///
    /// When using this feature you should take care that the window is
    /// still identifiable as the pinentry.
    pub fn with_title(&mut self, title: &'a str)
        ensures
            final(self).spec_title() == Some(title@),
            unchanged_but_title(*old(self), *final(self)),
    {
        self.title = Some(title);
    }

    /// Sets the descriptive text to display.
    pub fn with_description(&mut self, description: &'a str)
        ensures
            final(self).spec_description() == Some(description@),
            unchanged_but_description(*old(self), *final(self)),
    {
        self.description = Some(description);
    }

    /// Sets the error text to display.
    ///
    /// This is used to display an error message, for example on a second
    /// interaction if the first passphrase was invalid.
    pub fn with_error(&mut self, error: &'a str)
        ensures
            final(self).spec_error() == Some(error@),
            unchanged_but_error(*old(self), *final(self)),
    {
        self.error = Some(error);
    }

    /// Sets the prompt to show.
    ///
    /// When asking for a passphrase or PIN, this sets the text just before
    /// the widget for passphrase entry.
    pub fn with_prompt(&mut self, prompt: &'a str)
        ensures
            final(self).spec_prompt() == Some(prompt@),
            unchanged_but_prompt(*old(self), *final(self)),
    {
        self.prompt = Some(prompt);
    }

    /// Enables confirmation prompting.
    ///
    /// When asking for a passphrase or PIN, this sets the text just before
    /// the widget for the passphrase confirmation entry.
    pub fn with_confirmation(&mut self, confirmation_prompt: &'a str, mismatch_error: &'a str)
        ensures
            final(self).spec_confirmation() == Some((confirmation_prompt@, mismatch_error@)),
            unchanged_but_confirmation(*old(self), *final(self)),
    {
        self.confirmation = Some((confirmation_prompt, mismatch_error));
    }

    /// Sets the text for the button signalling confirmation (the "OK"
    /// button).
    pub fn with_ok(&mut self, ok: &'a str)
        ensures
            final(self).spec_ok() == Some(ok@),
            unchanged_but_ok(*old(self), *final(self)),
    {
        self.ok = Some(ok);
    }

    /// Sets the text for the button signalling cancellation or disagreement
    /// (the "Cancel" button).
    pub fn with_cancel(&mut self, cancel: &'a str)
        ensures
            final(self).spec_cancel() == Some(cancel@),
            unchanged_but_cancel(*old(self), *final(self)),
    {
        self.cancel = Some(cancel);
    }

    /// Sets the timeout (in seconds) before the dialog gives up.
    pub fn with_timeout(&mut self, timeout: u16)
        ensures
            final(self).spec_timeout() == Some(timeout),
            unchanged_but_timeout(*old(self), *final(self)),
    {
        self.timeout = Some(timeout);
    }

    /// The configuration requests this dialog owes before asking for the
    /// passphrase, one per configured option, in a fixed order.
    pub open spec fn spec_setup_requests(&self) -> Seq<SpecRequest> {
        self.title_requests() + self.description_requests() + self.error_requests()
            + self.prompt_requests() + self.ok_requests() + self.cancel_requests()
            + self.confirmation_requests() + self.timeout_requests()
    }

    /// The `SETTITLE` request, when a title is configured.
    pub open spec fn title_requests(&self) -> Seq<SpecRequest> {
        match self.spec_title() {
            Some(t) => seq![spec_req("SETTITLE"@, t)],
            None => Seq::empty(),
        }
    }

    /// The `SETDESC` request, when descriptive text is configured.
    pub open spec fn description_requests(&self) -> Seq<SpecRequest> {
        match self.spec_description() {
            Some(t) => seq![spec_req("SETDESC"@, t)],
            None => Seq::empty(),
        }
    }

    /// The `SETERROR` request, when error text is configured.
    pub open spec fn error_requests(&self) -> Seq<SpecRequest> {
        match self.spec_error() {
            Some(t) => seq![spec_req("SETERROR"@, t)],
            None => Seq::empty(),
        }
    }

    /// The `SETPROMPT` request, when a prompt is configured.
    pub open spec fn prompt_requests(&self) -> Seq<SpecRequest> {
        match self.spec_prompt() {
            Some(t) => seq![spec_req("SETPROMPT"@, t)],
            None => Seq::empty(),
        }
    }

    /// The `SETOK` request, when "OK" button text is configured.
    pub open spec fn ok_requests(&self) -> Seq<SpecRequest> {
        match self.spec_ok() {
            Some(t) => seq![spec_req("SETOK"@, t)],
            None => Seq::empty(),
        }
    }

    /// The `SETCANCEL` request, when "Cancel" button text is configured.
    pub open spec fn cancel_requests(&self) -> Seq<SpecRequest> {
        match self.spec_cancel() {
            Some(t) => seq![spec_req("SETCANCEL"@, t)],
            None => Seq::empty(),
        }
    }

    /// The `SETREPEAT` and `SETREPEATERROR` requests, when confirmation is
    /// configured.
    pub open spec fn confirmation_requests(&self) -> Seq<SpecRequest> {
        match self.spec_confirmation() {
            Some(pair) => seq![
                spec_req("SETREPEAT"@, pair.0),
                spec_req("SETREPEATERROR"@, pair.1),
            ],
            None => Seq::empty(),
        }
    }

    /// The `SETTIMEOUT` request with the timeout written in decimal, when a
    /// timeout is configured.
    pub open spec fn timeout_requests(&self) -> Seq<SpecRequest> {
        match self.spec_timeout() {
            Some(n) => seq![spec_req("SETTIMEOUT"@, crate::decimal::spec_decimal(n as int))],
            None => Seq::empty(),
        }
    }

    /// Builds the configuration requests this dialog owes before `GETPIN`
    /// is sent: one per configured option, in the order of
    /// [`PassphraseInput::spec_setup_requests`].
    pub fn setup_requests(&self) -> (r: Vec<Request>)
        ensures
            r.deep_view() == self.spec_setup_requests(),
    {
        let mut v: Vec<Request> = Vec::new();
        proof {
            assert(v.deep_view() =~= Seq::<SpecRequest>::empty());
        }
        push_opt_req(
            &mut v,
            "SETTITLE",
            match self.title {
                Some(t) => Some(String::from_str(t)),
                None => None,
            },
        );
        proof {
            assert(Seq::<SpecRequest>::empty() + self.title_requests()
                =~= self.title_requests());
        }
        push_opt_req(
            &mut v,
            "SETDESC",
            match self.description {
                Some(t) => Some(String::from_str(t)),
                None => None,
            },
        );
        push_opt_req(
            &mut v,
            "SETERROR",
            match self.error {
                Some(t) => Some(String::from_str(t)),
                None => None,
            },
        );
        push_opt_req(
            &mut v,
            "SETPROMPT",
            match self.prompt {
                Some(t) => Some(String::from_str(t)),
                None => None,
            },
        );
        push_opt_req(
            &mut v,
            "SETOK",
            match self.ok {
                Some(t) => Some(String::from_str(t)),
                None => None,
            },
        );
        push_opt_req(
            &mut v,
            "SETCANCEL",
            match self.cancel {
                Some(t) => Some(String::from_str(t)),
                None => None,
            },
        );
        push_opt_req(
            &mut v,
            "SETREPEAT",
            match self.confirmation {
                Some(pair) => Some(String::from_str(pair.0)),
                None => None,
            },
        );
        push_opt_req(
            &mut v,
            "SETREPEATERROR",
            match self.confirmation {
                Some(pair) => Some(String::from_str(pair.1)),
                None => None,
            },
        );
        proof {
            match self.spec_confirmation() {
                Some(pair) => {
                    assert(seq![spec_req("SETREPEAT"@, pair.0)] + seq![
                        spec_req("SETREPEATERROR"@, pair.1),
                    ] =~= self.confirmation_requests());
                },
                None => {
                    assert(Seq::<SpecRequest>::empty() + Seq::<SpecRequest>::empty()
                        =~= self.confirmation_requests());
                },
            }
        }
        push_opt_req(
            &mut v,
            "SETTIMEOUT",
            match self.timeout {
                Some(n) => Some(crate::decimal::u16_to_decimal(n)),
                None => None,
            },
        );
        v
    }
}

/// The two dialogs agree on every option except possibly the title.
pub open spec fn unchanged_but_title(a: PassphraseInput<'_>, b: PassphraseInput<'_>) -> bool {
    &&& a.spec_description() == b.spec_description()
    &&& a.spec_error() == b.spec_error()
    &&& a.spec_prompt() == b.spec_prompt()
    &&& a.spec_confirmation() == b.spec_confirmation()
    &&& a.spec_ok() == b.spec_ok()
    &&& a.spec_cancel() == b.spec_cancel()
    &&& a.spec_timeout() == b.spec_timeout()
}

/// The two dialogs agree on every option except possibly the description.
pub open spec fn unchanged_but_description(
    a: PassphraseInput<'_>,
    b: PassphraseInput<'_>,
) -> bool {
    &&& a.spec_title() == b.spec_title()
    &&& a.spec_error() == b.spec_error()
    &&& a.spec_prompt() == b.spec_prompt()
    &&& a.spec_confirmation() == b.spec_confirmation()
    &&& a.spec_ok() == b.spec_ok()
    &&& a.spec_cancel() == b.spec_cancel()
    &&& a.spec_timeout() == b.spec_timeout()
}

/// The two dialogs agree on every option except possibly the error text.
pub open spec fn unchanged_but_error(a: PassphraseInput<'_>, b: PassphraseInput<'_>) -> bool {
    &&& a.spec_title() == b.spec_title()
    &&& a.spec_description() == b.spec_description()
    &&& a.spec_prompt() == b.spec_prompt()
    &&& a.spec_confirmation() == b.spec_confirmation()
    &&& a.spec_ok() == b.spec_ok()
    &&& a.spec_cancel() == b.spec_cancel()
    &&& a.spec_timeout() == b.spec_timeout()
}

/// The two dialogs agree on every option except possibly the prompt.
pub open spec fn unchanged_but_prompt(a: PassphraseInput<'_>, b: PassphraseInput<'_>) -> bool {
    &&& a.spec_title() == b.spec_title()
    &&& a.spec_description() == b.spec_description()
    &&& a.spec_error() == b.spec_error()
    &&& a.spec_confirmation() == b.spec_confirmation()
    &&& a.spec_ok() == b.spec_ok()
    &&& a.spec_cancel() == b.spec_cancel()
    &&& a.spec_timeout() == b.spec_timeout()
}

/// The two dialogs agree on every option except possibly the confirmation.
pub open spec fn unchanged_but_confirmation(
    a: PassphraseInput<'_>,
    b: PassphraseInput<'_>,
) -> bool {
    &&& a.spec_title() == b.spec_title()
    &&& a.spec_description() == b.spec_description()
    &&& a.spec_error() == b.spec_error()
    &&& a.spec_prompt() == b.spec_prompt()
    &&& a.spec_ok() == b.spec_ok()
    &&& a.spec_cancel() == b.spec_cancel()
    &&& a.spec_timeout() == b.spec_timeout()
}

/// The two dialogs agree on every option except possibly the "OK" text.
pub open spec fn unchanged_but_ok(a: PassphraseInput<'_>, b: PassphraseInput<'_>) -> bool {
    &&& a.spec_title() == b.spec_title()
    &&& a.spec_description() == b.spec_description()
    &&& a.spec_error() == b.spec_error()
    &&& a.spec_prompt() == b.spec_prompt()
    &&& a.spec_confirmation() == b.spec_confirmation()
    &&& a.spec_cancel() == b.spec_cancel()
    &&& a.spec_timeout() == b.spec_timeout()
}

/// The two dialogs agree on every option except possibly the "Cancel" text.
pub open spec fn unchanged_but_cancel(a: PassphraseInput<'_>, b: PassphraseInput<'_>) -> bool {
    &&& a.spec_title() == b.spec_title()
    &&& a.spec_description() == b.spec_description()
    &&& a.spec_error() == b.spec_error()
    &&& a.spec_prompt() == b.spec_prompt()
    &&& a.spec_confirmation() == b.spec_confirmation()
    &&& a.spec_ok() == b.spec_ok()
    &&& a.spec_timeout() == b.spec_timeout()
}

/// The two dialogs agree on every option except possibly the timeout.
pub open spec fn unchanged_but_timeout(a: PassphraseInput<'_>, b: PassphraseInput<'_>) -> bool {
    &&& a.spec_title() == b.spec_title()
    &&& a.spec_description() == b.spec_description()
    &&& a.spec_error() == b.spec_error()
    &&& a.spec_prompt() == b.spec_prompt()
    &&& a.spec_confirmation() == b.spec_confirmation()
    &&& a.spec_ok() == b.spec_ok()
    &&& a.spec_cancel() == b.spec_cancel()
}

} // verus!
