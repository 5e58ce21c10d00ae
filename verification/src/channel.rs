//! The messaging channel as the library sees it.
//!
//! The channel itself is a browser that some worker drives. This module
//! keeps what the worker has to know between two browser actions: whether
//! the driver runs and whether the session is logged in. Each method takes
//! the outcome of the action just done, or says which action comes next.

use vstd::prelude::*;
use crate::text::{chars_of, string_of, push_text};
use crate::template::{replaced, replace_all};
use crate::phone::{
    normalized,
    PhoneNormalizer,
    DEFAULT_COUNTRY_CODE,
    DEFAULT_NATIONAL_DIGITS,
};

verus! {

/// Where the browser driver listens.
pub const WEBDRIVER_URL: &'static str = "http://localhost:4444";

/// The page of the messaging surface.
pub const WHATSAPP_WEB_URL: &'static str = "https://web.whatsapp.com/";

/// The element whose presence shows a logged-in session.
pub const LOGIN_MARKER_XPATH: &'static str = "//div[@contenteditable='true'][@data-tab='3']";

/// The button that sends the message of an open chat.
pub const SEND_BUTTON_XPATH: &'static str = "//button[@aria-label='Enviar']";

/// The pause, in seconds, before and after the click on the send button.
pub const SETTLE_SECONDS: u64 = 2;

/// The start of the address of a chat page, up to the phone number.
pub const SEND_URL_HEAD: &'static str = "https://web.whatsapp.com/send?phone=";

/// The part of the address of a chat page between the phone number and the
/// text.
pub const SEND_URL_TEXT: &'static str = "&text=";

/// Why the channel refused or failed.
#[derive(Clone, Copy, Debug, PartialEq, Eq, Structural)]
pub enum ChannelError {
    /// The browser driver could not be started.
    DriverStartFailed,
    /// An action was asked for before the driver was started.
    DriverNotInitialized,
    /// The logged-in session did not show up in time.
    LoginTimedOut,
    /// A message was to be sent without a logged-in session.
    NotLoggedIn,
}

/// What a user is told of a channel error.
pub open spec fn channel_error_text(error: ChannelError) -> Seq<char> {
    match error {
        ChannelError::DriverStartFailed =>
            "Falha ao inicializar o WebDriver. Verifique se o geckodriver está instalado e em execução."@,
        ChannelError::DriverNotInitialized => "WebDriver não inicializado"@,
        ChannelError::LoginTimedOut => "Tempo esgotado aguardando o login"@,
        ChannelError::NotLoggedIn => "Não está logado no WhatsApp Web"@,
    }
}

impl ChannelError {
    /// What a user is told of this error.
    pub fn message(&self) -> (text: String)
        ensures
            text@ == channel_error_text(*self),
    {
        match self {
            ChannelError::DriverStartFailed =>
                "Falha ao inicializar o WebDriver. Verifique se o geckodriver está instalado e em execução.".to_owned(),
            ChannelError::DriverNotInitialized => "WebDriver não inicializado".to_owned(),
            ChannelError::LoginTimedOut => "Tempo esgotado aguardando o login".to_owned(),
            ChannelError::NotLoggedIn => "Não está logado no WhatsApp Web".to_owned(),
        }
    }
}

/// A message as it stands in the address of a chat page: every space is
/// written `%20`.
pub open spec fn encoded(message: Seq<char>) -> Seq<char> {
    replaced(message, " "@, "%20"@)
}

/// The address of the chat page that sends `message` to `phone`.
pub open spec fn send_url(phone: Seq<char>, message: Seq<char>) -> Seq<char> {
    SEND_URL_HEAD@ + phone + SEND_URL_TEXT@ + encoded(message)
}

/// What the worker knows of the channel.
pub struct WhatsAppAutomation {
    driver_started: bool,
    is_logged_in: bool,
}

impl WhatsAppAutomation {
    #[verifier::type_invariant]
    spec fn well_formed(self) -> bool {
        self.is_logged_in ==> self.driver_started
    }

    /// Whether the browser driver runs.
    pub closed spec fn driver_started(&self) -> bool {
        self.driver_started
    }

    /// Whether the session is logged in.
    pub closed spec fn logged_in(&self) -> bool {
        self.is_logged_in
    }

    /// A channel whose driver does not run yet.
    pub fn new() -> (channel: Self)
        ensures
            !channel.driver_started(),
            !channel.logged_in(),
    {
        WhatsAppAutomation { driver_started: false, is_logged_in: false }
    }

    /// Takes note of an attempt to start the browser driver at
    /// [`WEBDRIVER_URL`].
    pub fn initialize(&mut self, started: bool) -> (result: Result<(), ChannelError>)
        ensures
            started ==> result is Ok && final(self).driver_started() && final(self).logged_in()
                == old(self).logged_in(),
            !started ==> result == Err::<(), ChannelError>(ChannelError::DriverStartFailed)
                && *final(self) == *old(self),
    {
        proof {
            use_type_invariant(&*self);
        }
        if !started {
            return Err(ChannelError::DriverStartFailed);
        }
        *self = WhatsAppAutomation { driver_started: true, is_logged_in: self.is_logged_in };
        Ok(())
    }

    /// The page to load next, once the driver runs.
    pub fn load_whatsapp_web(&self) -> (result: Result<&'static str, ChannelError>)
        ensures
            match result {
                Ok(url) => self.driver_started() && url@ == WHATSAPP_WEB_URL@,
                Err(e) => !self.driver_started() && e == ChannelError::DriverNotInitialized,
            },
    {
        if !self.driver_started {
            return Err(ChannelError::DriverNotInitialized);
        }
        Ok(WHATSAPP_WEB_URL)
    }

    /// Takes note of the wait for the element at [`LOGIN_MARKER_XPATH`]:
    /// `found` says whether it showed up in time.
    pub fn wait_for_login(&mut self, found: bool) -> (result: Result<(), ChannelError>)
        ensures
            final(self).driver_started() == old(self).driver_started(),
            match result {
                Ok(_) => old(self).driver_started() && found && final(self).logged_in(),
                Err(e) => final(self).logged_in() == old(self).logged_in() && (
                if old(self).driver_started() {
                    !found && e == ChannelError::LoginTimedOut
                } else {
                    e == ChannelError::DriverNotInitialized
                }),
            },
    {
        proof {
            use_type_invariant(&*self);
        }
        if !self.driver_started {
            return Err(ChannelError::DriverNotInitialized);
        }
        if !found {
            return Err(ChannelError::LoginTimedOut);
        }
        *self = WhatsAppAutomation { driver_started: true, is_logged_in: true };
        Ok(())
    }

    /// The address of the chat page that sends `mensagem` to `numero`. The
    /// worker loads it, waits for the button at [`SEND_BUTTON_XPATH`] and
    /// clicks it, with a pause of [`SETTLE_SECONDS`] before and after.
    pub fn send_message(&self, numero: &str, mensagem: &str) -> (result: Result<
        String,
        ChannelError,
    >)
        ensures
            match result {
                Ok(url) => self.logged_in() && url@ == send_url(numero@, mensagem@),
                Err(e) => !self.logged_in() && e == ChannelError::NotLoggedIn,
            },
    {
        proof {
            use_type_invariant(self);
        }
        if !self.is_logged_in {
            return Err(ChannelError::NotLoggedIn);
        }
        if !self.driver_started {
            return Err(ChannelError::DriverNotInitialized);
        }
        let message = chars_of(mensagem);
        let space = chars_of(" ");
        let escape = chars_of("%20");
        let encoded = string_of(&replace_all(&message, &space, &escape));
        let mut url = SEND_URL_HEAD.to_owned();
        push_text(&mut url, numero);
        push_text(&mut url, SEND_URL_TEXT);
        push_text(&mut url, encoded.as_str());
        Ok(url)
    }

    /// Ends the session. Returns whether a driver ran, which the worker then
    /// has to quit.
    pub fn close(&mut self) -> (quit_driver: bool)
        ensures
            quit_driver == old(self).driver_started(),
            !final(self).driver_started(),
            !final(self).logged_in(),
    {
        let quit_driver = self.driver_started;
        *self = WhatsAppAutomation { driver_started: false, is_logged_in: false };
        quit_driver
    }

    /// Brings a phone number into international form, with the country code
    /// [`DEFAULT_COUNTRY_CODE`] for numbers of up to
    /// [`DEFAULT_NATIONAL_DIGITS`] digits.
    pub fn format_phone_number(numero: &str) -> (out: String)
        ensures
            out@ == normalized(numero@, DEFAULT_COUNTRY_CODE@, DEFAULT_NATIONAL_DIGITS),
    {
        let normalizer = PhoneNormalizer::new(DEFAULT_COUNTRY_CODE, DEFAULT_NATIONAL_DIGITS);
        normalizer.normalize(numero)
    }

    /// Whether the messaging surface can be reached. Nothing is probed: the
    /// answer is always yes.
    pub fn check_whatsapp_web_availability() -> (available: bool)
        ensures
            available,
    {
        true
    }
}

} // verus!
