/// The transport contract any network client must satisfy
pub mod client;
/// The fail-fast transport used to exercise request construction
pub mod test_client;
