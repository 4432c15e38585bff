//! The access point form: network name, visibility, authentication and password.
use vstd::prelude::*;

use super::{
    auth_of_text, default_ap_conf, AccessPointConfiguration, ApConfView, AuthMethod,
    PASSWORD_MAX_BYTES, SSID_MAX_BYTES,
};
use crate::edge::field::{CheckedField, Field, TextField};
use crate::text::{fits_utf8, str_eq};

verus! {

/// What the access point form reports: nothing changed, some input is in error, or
/// the settings it describes.
pub enum ApState {
    Unchanged,
    Errors,
    Conf(AccessPointConfiguration),
}

impl ApState {
    pub fn conf(&self) -> (r: Option<&AccessPointConfiguration>)
        ensures
            match *self {
                ApState::Conf(c) => r == Some(&c),
                _ => r is None,
            },
    {
        match self {
            ApState::Conf(c) => Some(c),
            _ => None,
        }
    }
}


/// The inputs of the access point form.
pub struct ApForm {
    pub ssid: TextField,
    pub hidden_ssid: CheckedField,
    pub auth: TextField,
    pub password: TextField,
    pub password_confirm: TextField,
}

pub open spec fn password_error_text() -> Seq<char> {
    "Password cannot be empty"@
}

pub open spec fn confirm_error_text() -> Seq<char> {
    "Passwords do not match"@
}

/// Validates a password: it cannot be empty.
pub fn validate_password(password: String) -> (r: Result<String, String>)
    ensures
        r matches Ok(p) ==> p@ == password@ && password@.len() > 0,
        r matches Err(e) ==> password@.len() == 0 && e@ == password_error_text(),
{
    if password.as_str().unicode_len() == 0 {
        proof { reveal_strlit("Password cannot be empty"); }
        Err(String::from_str("Password cannot be empty"))
    } else {
        Ok(password)
    }
}

/// Validates a password confirmation: it must be the password.
pub fn validate_password_confirm(raw: String, password: &String) -> (r: Result<String, String>)
    ensures
        r matches Ok(p) ==> p@ == raw@ && raw@ == password@,
        r matches Err(e) ==> raw@ != password@ && e@ == confirm_error_text(),
{
    if str_eq(raw.as_str(), password.as_str()) {
        Ok(raw)
    } else {
        proof { reveal_strlit("Passwords do not match"); }
        Err(String::from_str("Passwords do not match"))
    }
}

impl ApForm {
    /// The form for `conf`, with the values the UI state holds for its inputs.
    pub fn new(
        conf: &AccessPointConfiguration,
        ssid_state: Option<String>,
        hidden_state: Option<bool>,
        auth_state: Option<String>,
        password_state: Option<String>,
        confirm_state: Option<String>,
    ) -> (f: Self)
        ensures
            f.ssid.initial_value matches Some(x) && x@ == conf.ssid@,
            f.hidden_ssid.initial_value == Some(conf.ssid_hidden),
            f.auth.initial_value matches Some(x) && x@ == super::auth_text(conf.auth_method),
            f.password.initial_value matches Some(x) && x@ == conf.password@,
            f.password_confirm.initial_value matches Some(x) && x@ == conf.password@,
            f.ssid.value_state == ssid_state,
            f.hidden_ssid.value_state == hidden_state,
            f.auth.value_state == auth_state,
            f.password.value_state == password_state,
            f.password_confirm.value_state == confirm_state,
            f.ssid.raw_value is None,
            f.hidden_ssid.raw_value is None,
            f.auth.raw_value is None,
            f.password.raw_value is None,
            f.password_confirm.raw_value is None,
    {
        ApForm {
            ssid: Field::text(conf.ssid.clone(), ssid_state),
            hidden_ssid: Field::checked(conf.ssid_hidden, hidden_state),
            auth: Field::text(conf.auth_method.to_text(), auth_state),
            password: Field::text(conf.password.clone(), password_state),
            password_confirm: Field::text(conf.password.clone(), confirm_state),
        }
    }

    /// The authentication method the form selects.
    pub open spec fn spec_auth(&self) -> AuthMethod {
        auth_of_text(self.auth.spec_raw())
    }

    pub open spec fn password_error(&self) -> bool {
        self.password.spec_raw().len() == 0
    }

    pub open spec fn confirm_error(&self) -> bool {
        self.password_confirm.spec_raw() != self.password.spec_raw()
    }

    /// What the form reports. The password inputs only count when the selected method
    /// is not the open one, and errors only while the form is enabled.
    pub open spec fn spec_state_view(&self, disabled: bool) -> Option<Option<ApConfView>> {
        let secured = self.spec_auth() != AuthMethod::Open;
        if !disabled && secured && (self.password_error() || self.confirm_error()) {
            None
        } else if !(self.ssid.spec_dirty(false) || self.hidden_ssid.spec_dirty(false)
            || self.auth.spec_dirty(false) || secured && (self.password.spec_dirty(
            self.password_error(),
        ) || self.password_confirm.spec_dirty(self.confirm_error()))) {
            Some(None)
        } else {
            Some(
                Some(
                    ApConfView {
                        ssid: self.ssid.spec_raw(),
                        ssid_hidden: self.hidden_ssid.spec_raw(),
                        auth_method: self.spec_auth(),
                        password: if self.password_error() {
                            Seq::empty()
                        } else {
                            self.password.spec_raw()
                        },
                        ..default_ap_conf()
                    },
                ),
            )
        }
    }

    /// Whether the form reports settings whose network name or password do not fit
    /// the space the settings keep for them, which `state` does not accept.
    pub open spec fn spec_overflows(&self, disabled: bool) -> bool {
        self.spec_state_view(disabled) matches Some(Some(v)) && !v.fits()
    }

    /// Which of the three reports the form gives: `None` for `Errors`, `Some(false)`
    /// for `Unchanged`, `Some(true)` for settings.
    fn report_kind(&self, disabled: bool) -> (r: Option<bool>)
        ensures
            match self.spec_state_view(disabled) {
                None => r is None,
                Some(None) => r == Some(false),
                Some(Some(_)) => r == Some(true),
            },
    {
        let auth = AuthMethod::from_text(self.auth.raw_value().as_str());
        let secured = !matches!(auth, AuthMethod::Open);
        let password_raw = self.password.raw_value();
        let password_error = validate_password(password_raw.clone()).is_err();
        let confirm_error = validate_password_confirm(
            self.password_confirm.raw_value(),
            &password_raw,
        ).is_err();
        if !disabled && secured && (password_error || confirm_error) {
            return None;
        }
        let dirty = self.ssid.dirty_given(false) || self.hidden_ssid.dirty_given(false)
            || self.auth.dirty_given(false) || secured && (self.password.dirty_given(
            password_error,
        ) || self.password_confirm.dirty_given(confirm_error));
        Some(dirty)
    }

    /// Whether `state` accepts the form: false where it would report settings whose
    /// network name takes more than `SSID_MAX_BYTES` bytes or whose password takes
    /// more than `PASSWORD_MAX_BYTES`.
    pub fn state_fits(&self, disabled: bool) -> (r: bool)
        ensures
            r == !self.spec_overflows(disabled),
    {
        match self.report_kind(disabled) {
            Some(true) => {
                let ssid = self.ssid.raw_value();
                let password = self.password.raw_value();
                fits_utf8(ssid.as_str(), SSID_MAX_BYTES) && fits_utf8(
                    password.as_str(),
                    PASSWORD_MAX_BYTES,
                )
            },
            _ => true,
        }
    }

    /// What the form reports: `Errors` for `None`, `Unchanged` for `Some(None)`, and
    /// the settings otherwise, as `spec_state_view` describes. Settings whose network
    /// name or password would not fit are no input of it.
    pub fn state(&self, disabled: bool) -> (r: ApState)
        requires
            !self.spec_overflows(disabled),
        ensures
            match self.spec_state_view(disabled) {
                None => r is Errors,
                Some(None) => r is Unchanged,
                Some(Some(v)) => r matches ApState::Conf(c) && c@ == v && c@.fits(),
            },
    {
        match self.report_kind(disabled) {
            None => ApState::Errors,
            Some(false) => ApState::Unchanged,
            Some(true) => {
                let mut conf = AccessPointConfiguration::default();
                conf.ssid = self.ssid.raw_value();
                conf.ssid_hidden = self.hidden_ssid.raw_value();
                conf.auth_method = AuthMethod::from_text(self.auth.raw_value().as_str());
                conf.password = match validate_password(self.password.raw_value()) {
                    Ok(p) => p,
                    Err(_) => String::new(),
                };
                ApState::Conf(conf)
            },
        }
    }
}

/// A form whose authentication input shows method `m`, whose password inputs are
/// acceptable for it (the method is open, the form is disabled, or the password is
/// not empty and its confirmation matches), and whose name, hidden-name switch or
/// authentication input differs from what it started with, reports the settings of
/// its inputs: the name it shows, the hidden-name switch as it shows, the method `m`
/// and the password it shows, the other settings being the default ones.
pub proof fn law_ap_form_reports_its_inputs(f: ApForm, disabled: bool, m: AuthMethod)
    requires
        f.auth.spec_raw() == super::auth_text(m),
        m == AuthMethod::Open || disabled || (f.password.spec_raw().len() > 0
            && f.password_confirm.spec_raw() == f.password.spec_raw()),
        f.ssid.spec_dirty(false) || f.hidden_ssid.spec_dirty(false) || f.auth.spec_dirty(false),
    ensures
        f.spec_state_view(disabled) == Some(
            Some(
                ApConfView {
                    ssid: f.ssid.spec_raw(),
                    ssid_hidden: f.hidden_ssid.spec_raw(),
                    auth_method: m,
                    password: f.password.spec_raw(),
                    ..default_ap_conf()
                },
            ),
        ),
{
    super::law_auth_text_round_trip(m);
    if f.password.spec_raw().len() == 0 {
        assert(f.password.spec_raw() =~= Seq::<char>::empty());
    }
}

/// An enabled form whose authentication input shows a method other than the open
/// one, and whose password is empty or not confirmed, reports errors.
pub proof fn law_ap_form_unconfirmed_password_is_error(f: ApForm, m: AuthMethod)
    requires
        f.auth.spec_raw() == super::auth_text(m),
        m != AuthMethod::Open,
        f.password.spec_raw().len() == 0 || f.password_confirm.spec_raw()
            != f.password.spec_raw(),
    ensures
        f.spec_state_view(false) is None,
{
    super::law_auth_text_round_trip(m);
}

/// A form for the open method none of whose inputs differs from what it started
/// with reports no change.
pub proof fn law_ap_form_untouched_is_unchanged(f: ApForm, disabled: bool)
    requires
        f.auth.spec_raw() == super::auth_text(AuthMethod::Open),
        !f.ssid.spec_dirty(false),
        !f.hidden_ssid.spec_dirty(false),
        !f.auth.spec_dirty(false),
    ensures
        f.spec_state_view(disabled) == Some(None::<ApConfView>),
{
    super::law_auth_text_round_trip(AuthMethod::Open);
}

} // verus!
