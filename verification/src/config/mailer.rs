//! Outgoing mail.

use crate::config::builder::{ConfigItem, Row, flag_string, flag_text, push_item, redact_sensitive, redacted, row, rows};
use crate::text::{decimal, decimal_string};
use vstd::prelude::*;

verus! {

/// Sender and SMTP server.
#[derive(Clone, Debug)]
pub struct MailerConfig {
    /// Address mail is sent from.
    pub from_email: String,
    /// Name mail is sent under.
    pub from_name: String,
    /// Host of the SMTP server.
    pub smtp_host: String,
    /// Port of the SMTP server.
    pub smtp_port: u16,
    /// User at the SMTP server.
    pub smtp_username: String,
    /// Password at the SMTP server.
    pub smtp_password: String,
    /// Whether the connection is encrypted.
    pub smtp_secure: bool,
}

fn default_from_email() -> (out: String)
    ensures
        out@ == "noreply@example.com"@,
{
    String::from_str("noreply@example.com")
}

fn default_from_name() -> (out: String)
    ensures
        out@ == "Sorai"@,
{
    String::from_str("Sorai")
}

fn default_smtp_host() -> (out: String)
    ensures
        out@ == "localhost"@,
{
    String::from_str("localhost")
}

fn default_smtp_port() -> (out: u16)
    ensures
        out == 587,
{
    587
}

fn default_smtp_username() -> (out: String)
    ensures
        out@ == Seq::<char>::empty(),
{
    String::new()
}

fn default_smtp_password() -> (out: String)
    ensures
        out@ == Seq::<char>::empty(),
{
    String::new()
}

fn default_smtp_secure() -> (out: bool)
    ensures
        out == true,
{
    true
}

impl MailerConfig {
    /// Every field holds its default.
    pub open spec fn is_default(&self) -> bool {
        &&& self.from_email@ == "noreply@example.com"@
        &&& self.from_name@ == "Sorai"@
        &&& self.smtp_host@ == "localhost"@
        &&& self.smtp_port == 587
        &&& self.smtp_username@ == Seq::<char>::empty()
        &&& self.smtp_password@ == Seq::<char>::empty()
        &&& self.smtp_secure
    }

    /// The rows this record adds to the debug table.
    pub open spec fn debug_rows(&self) -> Seq<Row> {
        seq![
            row("Mailer"@, "From Email"@, self.from_email@),
            row("Mailer"@, "From Name"@, self.from_name@),
            row("Mailer"@, "SMTP Host"@, self.smtp_host@),
            row("Mailer"@, "SMTP Port"@, decimal(self.smtp_port as nat)),
            row("Mailer"@, "SMTP Username"@, self.smtp_username@),
            row("Mailer"@, "SMTP Password"@, redacted(self.smtp_password@)),
            row("Mailer"@, "SMTP Secure"@, flag_text(self.smtp_secure)),
        ]
    }

    /// Appends this record's rows to the debug table.
    pub fn add_to_debug(&self, items: &mut Vec<ConfigItem>)
        ensures
            rows(final(items)@) == rows(old(items)@) + self.debug_rows(),
    {
        push_item(items, "Mailer", "From Email", self.from_email.clone());
        push_item(items, "Mailer", "From Name", self.from_name.clone());
        push_item(items, "Mailer", "SMTP Host", self.smtp_host.clone());
        push_item(items, "Mailer", "SMTP Port", decimal_string(self.smtp_port as u64));
        push_item(items, "Mailer", "SMTP Username", self.smtp_username.clone());
        push_item(items, "Mailer", "SMTP Password", redact_sensitive(self.smtp_password.as_str()));
        push_item(items, "Mailer", "SMTP Secure", flag_string(self.smtp_secure));
    }
}

impl Default for MailerConfig {
    fn default() -> (out: Self)
        ensures
            out.is_default(),
    {
        MailerConfig {
            from_email: default_from_email(),
            from_name: default_from_name(),
            smtp_host: default_smtp_host(),
            smtp_port: default_smtp_port(),
            smtp_username: default_smtp_username(),
            smtp_password: default_smtp_password(),
            smtp_secure: default_smtp_secure(),
        }
    }
}

} // verus!
