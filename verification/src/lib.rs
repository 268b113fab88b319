//! Helpers for small command-line programs that talk to Amazon Bedrock:
//! translation of service errors into short reasons, extraction of streamed
//! text, and the naming of model resources.

pub mod arn;
pub mod boundary;
pub mod error;
pub mod header;
pub mod identity;
pub mod request;
pub mod retrieval;
pub mod settings;
pub mod stream;

pub use arn::generate_arn;
pub use error::{BedrockConverseError, BedrockConverseStreamError, ClientError, ServiceFault};
pub use header::render_header;
pub use request::ChatRequest;
pub use retrieval::get_rag_output_text;
pub use stream::{get_converse_output_text, next_action, replay, Action, Received, StreamEvent};
