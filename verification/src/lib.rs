//! ESP-IDF error codes as a checked type: a raw `esp_err_t` becomes an
//! [`IdfError`] only when it is one of the known error codes, and every
//! `IdfError` has a symbolic name and a description.

mod codes;
mod decimal;
mod error;

pub use codes::{
    begins_with_bracketed_name, esp_idf_error_names, esp_idf_error_texts, is_error_code,
    is_error_name_shape, is_name_char, lemma_error_codes_ascending, lemma_info_begins_with_name,
    lemma_infos_distinct, lemma_known_codes_are_listed, lemma_name_shape, lemma_names_distinct,
    lemma_table_entries, spec_error_info, spec_error_name, table_entry_matches,
    ESP_IDF_ERROR_CODES,
};
pub use decimal::{decimal_digits, digit_char, int_to_decimal, spec_int_decimal};
pub use error::{esp_err_t, IdfError, IdfErrorError, NonZeroI32};
