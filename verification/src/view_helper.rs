pub mod string_printer;
