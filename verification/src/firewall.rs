//! What is sent to the firewall, and what its answers mean.

use vstd::prelude::*;
use vstd::string::*;

verus! {

/// The address of the firewall's login page.
pub const LOGIN_PAGE_URL: &'static str = "https://192.168.1.10/";

/// The address of the firewall's backup and restore page.
pub const BACKUP_PAGE_URL: &'static str = "https://192.168.1.10/diag_backup.php";

/// What one field of a form carries.
#[derive(Debug, PartialEq, Eq)]
pub enum FormPart {
    /// A text value.
    Text(String),
    /// An upload with no content and no file name, of type
    /// `application/octet-stream`.
    EmptyFile,
    /// The file at the given path.
    File(String),
}

/// One field of a form.
#[derive(Debug, PartialEq, Eq)]
pub struct FormField {
    pub name: String,
    pub part: FormPart,
}

/// The mathematical value of a [`FormPart`].
pub enum FormPartView {
    Text(Seq<char>),
    EmptyFile,
    File(Seq<char>),
}

/// The mathematical value of a [`FormField`].
pub struct FormFieldView {
    pub name: Seq<char>,
    pub part: FormPartView,
}

impl View for FormPart {
    type V = FormPartView;

    open spec fn view(&self) -> FormPartView {
        match self {
            FormPart::Text(value) => FormPartView::Text(value@),
            FormPart::EmptyFile => FormPartView::EmptyFile,
            FormPart::File(path) => FormPartView::File(path@),
        }
    }
}

impl View for FormField {
    type V = FormFieldView;

    open spec fn view(&self) -> FormFieldView {
        FormFieldView { name: self.name@, part: self.part@ }
    }
}

/// The fields of a form, in the order in which they are sent.
pub open spec fn form_view(fields: Seq<FormField>) -> Seq<FormFieldView> {
    Seq::new(fields.len(), |i: int| fields[i]@)
}

/// A field with a text value.
pub open spec fn text_field(name: Seq<char>, value: Seq<char>) -> FormFieldView {
    FormFieldView { name, part: FormPartView::Text(value) }
}

/// The login form.
pub open spec fn login_form_spec(
    csrf_token: Seq<char>,
    username: Seq<char>,
    password: Seq<char>,
) -> Seq<FormFieldView> {
    seq![
        text_field("__csrf_magic"@, csrf_token),
        text_field("usernamefld"@, username),
        text_field("passwordfld"@, password),
        text_field("login"@, "Sign+In"@),
    ]
}

/// The form that asks for an encrypted backup of the whole configuration,
/// without the graphs' data.
pub open spec fn backup_form_spec(csrf_token: Seq<char>, encrypt_password: Seq<char>) -> Seq<
    FormFieldView,
> {
    seq![
        text_field("__csrf_magic"@, csrf_token),
        text_field("backuparea"@, ""@),
        text_field("donotbackuprrd"@, "yes"@),
        text_field("backupdata"@, "yes"@),
        text_field("encrypt"@, "yes"@),
        text_field("encrypt_password"@, encrypt_password),
        text_field("encrypt_password_confirm"@, encrypt_password),
        text_field("download"@, "Download configuration as XML"@),
        text_field("restorearea"@, ""@),
        FormFieldView { name: "conffile"@, part: FormPartView::EmptyFile },
        text_field("decrypt_password"@, ""@),
    ]
}

/// The form that restores the whole configuration from an encrypted backup.
pub open spec fn restore_form_spec(
    csrf_token: Seq<char>,
    backup_path: Seq<char>,
    decrypt_password: Seq<char>,
) -> Seq<FormFieldView> {
    seq![
        text_field("__csrf_magic"@, csrf_token),
        text_field("backuparea"@, ""@),
        text_field("donotbackuprrd"@, "yes"@),
        text_field("encrypt_password"@, ""@),
        text_field("encrypt_password_confirm"@, ""@),
        text_field("restorearea"@, ""@),
        FormFieldView { name: "conffile"@, part: FormPartView::File(backup_path) },
        text_field("decrypt"@, "yes"@),
        text_field("decrypt_password"@, decrypt_password),
        text_field("restore"@, "Restore Configuration"@),
    ]
}

/// Makes a field with a text value.
fn text(name: &str, value: String) -> (field: FormField)
    ensures
        field@ == text_field(name@, value@),
{
    FormField { name: String::from_str(name), part: FormPart::Text(value) }
}

/// Makes a field with a copy of a text value.
fn text_of(name: &str, value: &str) -> (field: FormField)
    ensures
        field@ == text_field(name@, value@),
{
    text(name, String::from_str(value))
}

/// Fills in the login form.
pub fn login_form(csrf_token: String, username: String, password: String) -> (fields: Vec<
    FormField,
>)
    ensures
        form_view(fields@) == login_form_spec(csrf_token@, username@, password@),
{
    let mut fields: Vec<FormField> = Vec::new();
    fields.push(text("__csrf_magic", csrf_token));
    fields.push(text("usernamefld", username));
    fields.push(text("passwordfld", password));
    fields.push(text_of("login", "Sign+In"));
    assert(form_view(fields@) =~= login_form_spec(csrf_token@, username@, password@));
    fields
}

/// Fills in the form that asks for a backup, encrypted under the given
/// password.
pub fn backup_form(csrf_token: String, encrypt_password: &str) -> (fields: Vec<FormField>)
    ensures
        form_view(fields@) == backup_form_spec(csrf_token@, encrypt_password@),
{
    let mut fields: Vec<FormField> = Vec::new();
    fields.push(text("__csrf_magic", csrf_token));
    fields.push(text_of("backuparea", ""));
    fields.push(text_of("donotbackuprrd", "yes"));
    fields.push(text_of("backupdata", "yes"));
    fields.push(text_of("encrypt", "yes"));
    fields.push(text_of("encrypt_password", encrypt_password));
    fields.push(text_of("encrypt_password_confirm", encrypt_password));
    fields.push(text_of("download", "Download configuration as XML"));
    fields.push(text_of("restorearea", ""));
    fields.push(FormField { name: String::from_str("conffile"), part: FormPart::EmptyFile });
    fields.push(text_of("decrypt_password", ""));
    assert(form_view(fields@) =~= backup_form_spec(csrf_token@, encrypt_password@));
    fields
}

/// Fills in the form that restores the backup at the given path, decrypted
/// with the given password.
pub fn restore_form(csrf_token: String, backup_path: String, decrypt_password: String) -> (fields:
    Vec<FormField>)
    ensures
        form_view(fields@) == restore_form_spec(csrf_token@, backup_path@, decrypt_password@),
{
    let mut fields: Vec<FormField> = Vec::new();
    fields.push(text("__csrf_magic", csrf_token));
    fields.push(text_of("backuparea", ""));
    fields.push(text_of("donotbackuprrd", "yes"));
    fields.push(text_of("encrypt_password", ""));
    fields.push(text_of("encrypt_password_confirm", ""));
    fields.push(text_of("restorearea", ""));
    fields.push(
        FormField { name: String::from_str("conffile"), part: FormPart::File(backup_path) },
    );
    fields.push(text_of("decrypt", "yes"));
    fields.push(text("decrypt_password", decrypt_password));
    fields.push(text_of("restore", "Restore Configuration"));
    assert(form_view(fields@) =~= restore_form_spec(
        csrf_token@,
        backup_path@,
        decrypt_password@,
    ));
    fields
}

/// How a request to the firewall ended.
#[derive(Clone, Copy, Debug, PartialEq, Eq, Structural)]
pub enum Reply {
    /// An answer came, with this status code.
    Status(u16),
    /// No answer came in time.
    TimedOut,
    /// The request failed otherwise.
    Failed,
}

/// Whether a status code reports success: whether it is one of 200 to 299.
pub open spec fn is_success_spec(status: u16) -> bool {
    200 <= status < 300
}

/// The view of an outcome that is text either way.
pub open spec fn message_view(r: Result<String, String>) -> Result<Seq<char>, Seq<char>> {
    match r {
        Ok(text) => Ok(text@),
        Err(text) => Err(text@),
    }
}

/// What is reported of a login.
pub open spec fn login_result_spec(reply: Reply) -> Result<Seq<char>, Seq<char>> {
    match reply {
        Reply::Status(status) => if is_success_spec(status) {
            Ok("Logged in successfully."@)
        } else {
            Err("There was an error while trying to log in."@)
        },
        Reply::TimedOut => Err("The log in request timed out."@),
        Reply::Failed => Err("There was an error while trying to log in."@),
    }
}

/// What is reported of a backup.
pub open spec fn backup_result_spec(stored: bool) -> Result<Seq<char>, Seq<char>> {
    if stored {
        Ok("Config file backed up successfully."@)
    } else {
        Err("Unable to back up config file."@)
    }
}

/// What is reported of a restore.
pub open spec fn restore_result_spec(status: u16) -> Result<Seq<char>, Seq<char>> {
    if is_success_spec(status) {
        Ok("Config file restored successfully."@)
    } else {
        Err("Unable to restore config file."@)
    }
}

/// Tells whether a status code reports success.
pub fn is_success(status: u16) -> (success: bool)
    ensures
        success == is_success_spec(status),
{
    200 <= status && status < 300
}

/// Says how a login ended: well where the firewall answered with success,
/// with a timeout where none came in time, and with an error otherwise.
pub fn login_result(reply: Reply) -> (r: Result<String, String>)
    ensures
        message_view(r) == login_result_spec(reply),
{
    match reply {
        Reply::Status(status) => {
            if is_success(status) {
                Ok(String::from_str("Logged in successfully."))
            } else {
                Err(String::from_str("There was an error while trying to log in."))
            }
        },
        Reply::TimedOut => Err(String::from_str("The log in request timed out.")),
        Reply::Failed => Err(String::from_str("There was an error while trying to log in.")),
    }
}

/// Says how a backup ended, given whether the download was stored whole.
pub fn backup_result(stored: bool) -> (r: Result<String, String>)
    ensures
        message_view(r) == backup_result_spec(stored),
{
    if stored {
        Ok(String::from_str("Config file backed up successfully."))
    } else {
        Err(String::from_str("Unable to back up config file."))
    }
}

/// Says how a restore ended, given the status code of the firewall's
/// answer.
pub fn restore_result(status: u16) -> (r: Result<String, String>)
    ensures
        message_view(r) == restore_result_spec(status),
{
    if is_success(status) {
        Ok(String::from_str("Config file restored successfully."))
    } else {
        Err(String::from_str("Unable to restore config file."))
    }
}

} // verus!
