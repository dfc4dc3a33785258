[package]
name = "php_scanner"
version = "0.1.0"
edition = "2021"
publish = false

[dependencies]
clap = "=4.6.7"
slog = "=2.8.2"
sloggers = "=2.2.0"
walkdir = "=2.5.0"

[dependencies.yara]
version = "=0.32.0"
default-features = false
features = ["vendored", "bundled-4_5_5", "module-dotnet", "module-dex", "module-macho", "module-hash", "ndebug"]
