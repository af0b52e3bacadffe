pub mod chat_template;
pub mod gguf;
pub mod gguf_text;
pub mod hf;
pub mod registry;
pub mod server;
