//! Local data and secret-management layer of a desktop assistant.
//!
//! The crate holds the rules of four small components: a codec between an
//! untyped value model and the parameters and columns of a relational store,
//! an authenticated-encryption envelope keyed by a passphrase, the outcome
//! handling of an operating-system secret vault, and a single-use token guard
//! for an authorization flow. Every function carries a contract over plain
//! mathematical models, proved with Verus. What the outside crates compute
//! is taken on trust, and each such place says so.

pub mod bridge;
pub mod envelope;
pub mod error;
pub mod oauth;
pub mod random;
pub mod state;
pub mod text_safe;
pub mod textmap;
pub mod value;
pub mod vault;

pub use bridge::{
    bind_params, build_row, db_execute, db_init, db_query, execute_result, query_result, ResultSet,
    Row,
};
pub use envelope::{
    decrypt_data, derive_key, encrypt_data, fits_envelope, init_encryption, open_bytes,
    open_envelope, plaintext_of, seal_envelope,
};
pub use error::{ErrorKind, SidecarError};
pub use oauth::{store_oauth_state, validate_oauth_state, OauthStates};
pub use random::{generate_random_string, generate_secure_id};
pub use state::AppState;
pub use textmap::TextMap;
pub use vault::{
    delete_credentials, delete_outcome, get_credentials, retrieve_outcome, store_credentials,
    store_outcome, VaultFailure,
};
pub use value::{is_decodable, json_to_sql, row_value_to_json, RawColumn, SqlParam, UntypedValue};
