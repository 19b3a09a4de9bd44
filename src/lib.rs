//! Driver logic for the AHT10-family temperature and humidity sensor.
//!
//! The driver talks to the device through a two-wire bus and a blocking
//! delay. Neither is owned by this library: the driver is a state machine
//! that names the next bus or delay action to perform and is told how that
//! action went. Everything it decides (which bytes go out, how the status
//! byte and the measurement payload are read) is stated and proved here.

mod laws;
mod protocol;
mod reading;
mod status;

pub use laws::{
    lemma_busy_measurement_refused, lemma_measure_session, lemma_read_failure_is_bus_error,
    lemma_uncalibrated_measurement_refused, lemma_write_failure_is_bus_error,
};
pub use protocol::{
    ADDR, Action, ActionView, Aht100, AhtError, CMD_INIT, CMD_MEASURE, CMD_RESET, Event,
    INIT_ARG1, INIT_ARG2, MEASURE_ARG1, MEASURE_ARG2, POWER_UP_MS, PROCESS_MS, Phase,
    RESPONSE_LEN, Reply, ReplyView, check_measurement, spec_accepts, spec_measurement, spec_step,
};
pub use reading::{AhtRaw, FULL_SCALE, decode_raw, spec_humidity_raw, spec_temperature_raw};
pub use status::{AhtMode, AhtStatus, decode_status, spec_decode_status, spec_mode_of};
