pub mod bucket;
pub mod bucket_location;
pub mod bucket_stat;
pub mod canonicalized_headers;
pub mod canonicalized_resource;
pub mod client;
pub mod crypto;
pub mod date;
pub mod error;
pub mod file;
pub mod folder;
pub mod oss_config;
pub mod oss_error;
pub mod percent;
pub mod request;
pub mod response;
pub mod signature;
pub mod text;
pub mod web;
pub mod xml;

pub use bucket::Bucket;
pub use bucket_location::BucketLocation;
pub use bucket_stat::BucketStat;
pub use canonicalized_headers::CanonicalizedHeaders;
pub use canonicalized_resource::CanonicalizedResource;
pub use client::Client;
pub use file::File;
pub use folder::Folder;
pub use oss_config::OssConfig;
pub use oss_error::OssError;
pub use signature::header_signature::HeaderSignature;
pub use signature::param_signature::ParamSignature;
pub use signature::SignatureAble;
