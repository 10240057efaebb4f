[package]
name = "en16931"
version = "0.1.0"
edition = "2021"
publish = false

[dependencies]
base64 = "*"
cefact-units = "*"
email_address = "*"
iban_validate = "*"
iso_currency = "*"
isocountry = "*"
mime = "*"
quick-xml = "*"
rust_decimal = "*"
time = "*"
url = "*"
