[package]
name = "p25rx"
version = "0.1.0"
edition = "2021"
publish = false

[dependencies]
rtlsdr = "=0.1.4"
demod_fm = "=1.0.0"
static_fir = "=0.2.0"
moving_avg = "=0.2.0"
num = "=0.1.43"
rtlsdr_iq = "=0.1.0"
collect_slice = "=1.2.0"
map_in_place = "=0.1.0"
pool = "=0.1.4"
mio = "=0.6.23"
mio-more = "=0.1.0"
arrayvec = "=0.7.8"
chrono = "=0.4.45"
clap = "=2.34.0"
serde = "=1.0.229"
serde_derive = "=1.0.229"
serde_json = "=1.0.151"
uhttp_method = "=0.10.0"
uhttp_uri = "=0.5.1"
uhttp_version = "=0.6.0"
uhttp_status = "=0.10.0"
uhttp_response_header = "=0.5.0"
uhttp_sse = "=0.5.1"
uhttp_chunked_write = "=0.5.1"
uhttp_json_api = "=0.6.1"
