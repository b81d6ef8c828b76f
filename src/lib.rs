//! Download responses: header derivation (disposition, media type, length)
//! and body selection for payloads held in memory, streamed, read from a
//! file, or left behind by an upload.

mod decimal;
mod encoding;
mod media_type;
mod response;
mod temp_file_reader;

pub use decimal::{decimal, decimal_text, digit_char};
pub use encoding::{
    bare_attachment, bare_disposition, component_encoded, disposition_for, disposition_value,
    encode_filename, is_component_output_char, is_header_unsafe_char, named_attachment_prefix,
};
pub use media_type::{mime_table_first, octet_stream, parsed_mime, resolved_type, MediaType};
pub use response::{
    content_disposition_name, content_length_name, content_type_name, expected_headers,
    file_build_is_stable, header_views, media_text_of, owned_buffer_round_trip, path_extension,
    path_file_name, text_of, type_for_extension_of, Body, Delivery, DownloadResponseData,
    DownloadResponsePro, FileMeta, Header, ResolvedResponse, Upload,
};
pub use temp_file_reader::{error_for, BuildError, IoCause, TempFileReader, UploadStorage};
