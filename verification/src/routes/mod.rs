//! What the request handlers decide, apart from the requests themselves.

pub mod admin;
pub mod flash;
pub mod greet;
pub mod login;
pub mod newsletters;
pub mod subscriptions;
pub mod subscriptions_confirm;

pub use crate::failure::error_chain_fmt;
pub use admin::{
    after_update, after_validation, change_password_form, check_new_password,
    reject_anonymous_users,
};
pub use flash::{render_page, FlashMessage, Level, Shown};
pub use greet::greet;
pub use login::{
    dashboard_redirect, login, login_form, login_redirect, LoginAnswer, LoginError, LoginRedirect,
};
pub use newsletters::{
    basic_authentication, get_confirmed_subscribers, recipients, split_credentials,
    AuthorizationHeader, BasicAuthError, BasicRefusal, ConfirmedSubscriber, NewsletterBody,
    NewsletterContent, PublishError,
};
pub use subscriptions::{
    generate_subscription_token, send_confirmation_email, ConfirmationEmail, FormData,
    StoreTokenError, SubscribeError, SubscribeStep,
};
pub use subscriptions_confirm::{confirm, ConfirmationError, Parameters};
