use vstd::prelude::*;
use vstd::string::*;

use crate::handlers::config::EmailConfig;
use crate::models::user_model::UserModel;
use crate::text::words::{first_word, first_word_of};

verus! {

/// A verification mail to one user.
pub struct EmailModel {
    user: UserModel,
    verification_code: String,
    from: String,
    config: EmailConfig,
}

/// The values that the mail template is filled with.
pub struct TemplateData {
    pub first_name: String,
    pub subject: String,
    pub verification_code: String,
}

/// The sender of the mails: `Cashwises <{address}>`.
pub open spec fn sender_address(address: Seq<char>) -> Seq<char> {
    "Cashwises <"@ + address + ">"@
}

/// The addressee of a mail: `{name} <{email}>`.
pub open spec fn mailbox(name: Seq<char>, email: Seq<char>) -> Seq<char> {
    name + " <"@ + email + ">"@
}

impl EmailModel {
    /// The user the mail goes to.
    pub closed spec fn addressee(&self) -> UserModel {
        self.user
    }

    /// The code the mail carries.
    pub closed spec fn code(&self) -> Seq<char> {
        self.verification_code@
    }

    /// The sender of the mail.
    pub closed spec fn sender(&self) -> Seq<char> {
        self.from@
    }

    /// The mail server settings.
    pub closed spec fn settings(&self) -> EmailConfig {
        self.config
    }

    /// A mail with `verification_code` to `user`, sent as `Cashwises <smtp_from>`.
    pub fn new(user: UserModel, verification_code: String, config: EmailConfig) -> (r: Self)
        ensures
            r.addressee() == user,
            r.code() == verification_code@,
            r.settings() == config,
            r.sender() == sender_address(config.smtp_from@),
    {
        let mut from = String::from_str("Cashwises <");
        from.append(config.smtp_from.as_str());
        from.append(">");
        EmailModel { user, verification_code, from, config }
    }

    /// The sender address.
    pub fn from(&self) -> (r: &str)
        ensures
            r@ == self.sender(),
    {
        self.from.as_str()
    }

    /// The code the mail carries.
    pub fn verification_code(&self) -> (r: &str)
        ensures
            r@ == self.code(),
    {
        self.verification_code.as_str()
    }

    /// The user the mail goes to.
    pub fn user(&self) -> (r: &UserModel)
        ensures
            *r == self.addressee(),
    {
        &self.user
    }

    /// The mail server settings.
    pub fn config(&self) -> (r: &EmailConfig)
        ensures
            *r == self.settings(),
    {
        &self.config
    }

    /// The addressee as `{name} <{email}>`.
    pub fn recipient(&self) -> (r: String)
        ensures
            r@ == mailbox(self.addressee().name@, self.addressee().email@),
    {
        let mut to = String::from_str(self.user.name.as_str());
        to.append(" <");
        to.append(self.user.email.as_str());
        to.append(">");
        to
    }

    /// The values for the template `template_name`: the first word of the user's name, the
    /// template name as subject, and the code. `None` where the name holds no word.
    pub fn render_data(&self, template_name: &str) -> (r: Option<TemplateData>)
        ensures
            r is Some <==> first_word(self.addressee().name@) is Some,
            r matches Some(d) ==> {
                &&& first_word(self.addressee().name@) == Some(d.first_name@)
                &&& d.subject@ == template_name@
                &&& d.verification_code@ == self.code()
            },
    {
        match first_word_of(self.user.name.as_str()) {
            Some(first_name) => Some(
                TemplateData {
                    first_name,
                    subject: String::from_str(template_name),
                    verification_code: self.verification_code.clone(),
                },
            ),
            None => None,
        }
    }

    /// The template and subject line of the verification mail.
    pub fn verification_message() -> (r: (&'static str, &'static str))
        ensures
            r.0@ == "verification_code"@,
            r.1@ == "Your account verification code"@,
    {
        ("verification_code", "Your account verification code")
    }
}

} // verus!
