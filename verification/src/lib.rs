pub mod localization;
pub mod lunar_datetime;
pub mod lunisolar_datetime;
pub mod zodiac_and_element;
