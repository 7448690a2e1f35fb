use vstd::prelude::*;

use crate::email::Email;
use crate::stores::EmailClient;
use crate::stores::EmailClientError;

verus! {

/// An email transport that accepts every dispatch without sending anything;
/// the demo and test configuration.
pub struct MockEmailClient;

impl EmailClient for MockEmailClient {
    fn send_email(&self, recipient: &Email, subject: &str, content: &str) -> Result<
        (),
        EmailClientError,
    > {
        Ok(())
    }
}

} // verus!
