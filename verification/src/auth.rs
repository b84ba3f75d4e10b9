//! Credential data and the authentication conversation: the single-exchange
//! responder that answers the stack's masked prompt with the secret, and
//! the error taxonomy of a failed attempt.

use vstd::prelude::*;

verus! {

/// One attempt's credential. The secret is handed to the conversation
/// responder exactly once and is never stored, logged or copied elsewhere
/// by the library.
pub struct Credential {
    pub username: String,
    pub secret: String,
    pub tty_path: String,
}

/// The mathematical value of a `Credential`.
pub ghost struct CredentialView {
    pub username: Seq<char>,
    pub secret: Seq<char>,
    pub tty_path: Seq<char>,
}

impl View for Credential {
    type V = CredentialView;

    open spec fn view(&self) -> CredentialView {
        CredentialView {
            username: self.username@,
            secret: self.secret@,
            tty_path: self.tty_path@,
        }
    }
}

/// The prompt styles the authentication stack may send.
#[derive(Clone, Copy, PartialEq, Eq, Structural, Debug)]
pub enum PromptStyle {
    /// A masked prompt; the only style this client answers.
    EchoOff,
    /// An echoed prompt.
    EchoOn,
    /// An error message to display.
    ErrorMessage,
    /// Informational text to display.
    TextInfo,
}

/// Why an attempt was denied.
#[derive(Clone, Copy, PartialEq, Eq, Structural, Debug)]
pub enum AuthError {
    /// The authentication context could not be created.
    ContextInitFailed,
    /// The conversation broke the single-masked-prompt protocol.
    ProtocolError,
    /// The stack rejected the credential.
    Rejected,
    /// The administrative login session could not be opened.
    SessionOpenFailed,
}

/// Whether a prompt batch follows the protocol this client speaks: exactly
/// one prompt, and that one masked.
pub open spec fn prompts_acceptable(prompts: Seq<PromptStyle>) -> bool {
    prompts.len() == 1 && prompts[0] == PromptStyle::EchoOff
}

/// Answers one conversation exchange. A batch of exactly one masked prompt
/// receives the secret as its single response; any other batch — several
/// prompts at once, or any unmasked style — is a protocol violation and is
/// refused rather than guessed at.
pub fn respond_to_prompts(prompts: &Vec<PromptStyle>, secret: &str) -> (r: Result<
    Vec<String>,
    AuthError,
>)
    ensures
        prompts_acceptable(prompts@) ==> (r matches Ok(resps) && resps.deep_view() == seq![
            secret@,
        ]),
        !prompts_acceptable(prompts@) ==> r == Err::<Vec<String>, AuthError>(
            AuthError::ProtocolError,
        ),
{
    if prompts.len() != 1 {
        return Err(AuthError::ProtocolError);
    }
    let style = prompts[0];
    match style {
        PromptStyle::EchoOff => {
            let mut resps: Vec<String> = Vec::new();
            resps.push(String::from_str(secret));
            proof {
                assert(resps.deep_view() =~= seq![secret@]);
            }
            Ok(resps)
        },
        _ => Err(AuthError::ProtocolError),
    }
}

/// The reason string reported for each denial. A rejected credential is
/// reported generically, never saying which credential field was wrong.
pub open spec fn auth_reason(e: AuthError) -> Seq<char> {
    match e {
        AuthError::ContextInitFailed => "authentication unavailable"@,
        AuthError::ProtocolError => "conversation protocol violation"@,
        AuthError::Rejected => "authentication failed"@,
        AuthError::SessionOpenFailed => "session open failed"@,
    }
}

/// Renders a denial reason for the caller.
pub fn auth_error_message(e: AuthError) -> (r: String)
    ensures
        r@ == auth_reason(e),
{
    match e {
        AuthError::ContextInitFailed => String::from_str("authentication unavailable"),
        AuthError::ProtocolError => String::from_str("conversation protocol violation"),
        AuthError::Rejected => String::from_str("authentication failed"),
        AuthError::SessionOpenFailed => String::from_str("session open failed"),
    }
}

} // verus!
