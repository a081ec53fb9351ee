use vstd::prelude::*;
use vstd::std_specs::convert::IntoSpec;

use crate::bronstein::{BronsteinClock, BronsteinConfig, BronsteinModel};
use crate::byo_yomi::{ByoYomiClock, ByoYomiConfig, ByoYomiModel};
use crate::control::TimeControl;
use crate::duration::Duration;
use crate::fischer::{FischerClock, FischerConfig, FischerModel};
use crate::simple_delay::{SimpleDelayClock, SimpleDelayConfig, SimpleDelayModel};

verus! {

/// Any of the clock configurations of this crate.
#[derive(Clone, Copy, Debug)]
pub enum AnyConfig {
    SimpleDelay(SimpleDelayConfig),
    Fischer(FischerConfig),
    Bronstein(BronsteinConfig),
    ByoYomi(ByoYomiConfig),
}

/// Any of the clocks of this crate.
#[derive(Clone, Copy, Debug)]
pub enum AnyClock {
    SimpleDelay(SimpleDelayClock),
    Fischer(FischerClock),
    Bronstein(BronsteinClock),
    ByoYomi(ByoYomiClock),
}

/// The abstract state of an [`AnyClock`]: the state of the clock it holds.
pub enum AnyModel {
    SimpleDelay(SimpleDelayModel),
    Fischer(FischerModel),
    Bronstein(BronsteinModel),
    ByoYomi(ByoYomiModel),
}

impl AnyModel {
    /// A fresh clock for `config`.
    pub open spec fn initial(config: AnyConfig) -> AnyModel {
        match config {
            AnyConfig::SimpleDelay(c) => AnyModel::SimpleDelay(SimpleDelayModel::initial(c)),
            AnyConfig::Fischer(c) => AnyModel::Fischer(FischerModel::initial(c)),
            AnyConfig::Bronstein(c) => AnyModel::Bronstein(BronsteinModel::initial(c)),
            AnyConfig::ByoYomi(c) => AnyModel::ByoYomi(ByoYomiModel::initial(c)),
        }
    }

    pub open spec fn display(self) -> Seq<char> {
        match self {
            AnyModel::SimpleDelay(m) => m.display(),
            AnyModel::Fischer(m) => m.display(),
            AnyModel::Bronstein(m) => m.display(),
            AnyModel::ByoYomi(m) => m.display(),
        }
    }

    pub open spec fn display_fits(self) -> bool {
        match self {
            AnyModel::SimpleDelay(m) => m.display_fits(),
            AnyModel::Fischer(m) => m.display_fits(),
            AnyModel::Bronstein(m) => m.display_fits(),
            AnyModel::ByoYomi(m) => m.display_fits(),
        }
    }
}

impl AnyClock {
    /// A fresh clock for `config`, as a value of specifications.
    pub open spec fn spec_new(config: AnyConfig) -> AnyClock {
        match config {
            AnyConfig::SimpleDelay(c) => AnyClock::SimpleDelay(SimpleDelayClock::spec_new(c)),
            AnyConfig::Fischer(c) => AnyClock::Fischer(FischerClock::spec_new(c)),
            AnyConfig::Bronstein(c) => AnyClock::Bronstein(BronsteinClock::spec_new(c)),
            AnyConfig::ByoYomi(c) => AnyClock::ByoYomi(ByoYomiClock::spec_new(c)),
        }
    }

    /// A new clock of the kind and with the config that `config` gives.
    pub fn new<T: Into<AnyConfig>>(config: T) -> (r: AnyClock)
        ensures
            T::obeys_into_spec() ==> r == AnyClock::spec_new(config.into_spec()),
            T::obeys_into_spec() ==> r.model() == AnyModel::initial(config.into_spec()),
    {
        match config.into() {
            AnyConfig::SimpleDelay(config) => AnyClock::SimpleDelay(SimpleDelayClock::new(config)),
            AnyConfig::Fischer(config) => AnyClock::Fischer(FischerClock::new(config)),
            AnyConfig::Bronstein(config) => AnyClock::Bronstein(BronsteinClock::new(config)),
            AnyConfig::ByoYomi(config) => AnyClock::ByoYomi(ByoYomiClock::new(config)),
        }
    }

    /// Appends how the clock shows to `out`.
    pub fn write_to(&self, out: &mut String)
        requires
            self.model().display_fits(),
        ensures
            final(out)@ == old(out)@ + self.model().display(),
    {
        match self {
            AnyClock::SimpleDelay(clock) => clock.write_to(out),
            AnyClock::Fischer(clock) => clock.write_to(out),
            AnyClock::Bronstein(clock) => clock.write_to(out),
            AnyClock::ByoYomi(clock) => clock.write_to(out),
        }
    }

    /// How the clock shows, as a string.
    pub fn to_string(&self) -> (r: String)
        requires
            self.model().display_fits(),
        ensures
            r@ == self.model().display(),
    {
        let mut out = String::new();
        self.write_to(&mut out);
        assert(out@ =~= self.model().display());
        out
    }
}

impl From<SimpleDelayConfig> for AnyConfig {
    fn from(value: SimpleDelayConfig) -> (r: AnyConfig) {
        AnyConfig::SimpleDelay(value)
    }
}

impl vstd::std_specs::convert::FromSpecImpl<SimpleDelayConfig> for AnyConfig {
    open spec fn obeys_from_spec() -> bool {
        true
    }

    open spec fn from_spec(value: SimpleDelayConfig) -> AnyConfig {
        AnyConfig::SimpleDelay(value)
    }
}

impl From<FischerConfig> for AnyConfig {
    fn from(value: FischerConfig) -> (r: AnyConfig) {
        AnyConfig::Fischer(value)
    }
}

impl vstd::std_specs::convert::FromSpecImpl<FischerConfig> for AnyConfig {
    open spec fn obeys_from_spec() -> bool {
        true
    }

    open spec fn from_spec(value: FischerConfig) -> AnyConfig {
        AnyConfig::Fischer(value)
    }
}

impl From<BronsteinConfig> for AnyConfig {
    fn from(value: BronsteinConfig) -> (r: AnyConfig) {
        AnyConfig::Bronstein(value)
    }
}

impl vstd::std_specs::convert::FromSpecImpl<BronsteinConfig> for AnyConfig {
    open spec fn obeys_from_spec() -> bool {
        true
    }

    open spec fn from_spec(value: BronsteinConfig) -> AnyConfig {
        AnyConfig::Bronstein(value)
    }
}

impl From<ByoYomiConfig> for AnyConfig {
    fn from(value: ByoYomiConfig) -> (r: AnyConfig) {
        AnyConfig::ByoYomi(value)
    }
}

impl vstd::std_specs::convert::FromSpecImpl<ByoYomiConfig> for AnyConfig {
    open spec fn obeys_from_spec() -> bool {
        true
    }

    open spec fn from_spec(value: ByoYomiConfig) -> AnyConfig {
        AnyConfig::ByoYomi(value)
    }
}

impl TryFrom<AnyConfig> for SimpleDelayConfig {
    type Error = AnyConfig;

    fn try_from(value: AnyConfig) -> (r: Result<SimpleDelayConfig, AnyConfig>) {
        match value {
            AnyConfig::SimpleDelay(inner) => Ok(inner),
            value => Err(value),
        }
    }
}

impl vstd::std_specs::convert::TryFromSpecImpl<AnyConfig> for SimpleDelayConfig {
    open spec fn obeys_try_from_spec() -> bool {
        true
    }

    open spec fn try_from_spec(value: AnyConfig) -> Result<SimpleDelayConfig, AnyConfig> {
        match value {
            AnyConfig::SimpleDelay(inner) => Ok(inner),
            value => Err(value),
        }
    }
}

impl TryFrom<AnyConfig> for FischerConfig {
    type Error = AnyConfig;

    fn try_from(value: AnyConfig) -> (r: Result<FischerConfig, AnyConfig>) {
        match value {
            AnyConfig::Fischer(inner) => Ok(inner),
            value => Err(value),
        }
    }
}

impl vstd::std_specs::convert::TryFromSpecImpl<AnyConfig> for FischerConfig {
    open spec fn obeys_try_from_spec() -> bool {
        true
    }

    open spec fn try_from_spec(value: AnyConfig) -> Result<FischerConfig, AnyConfig> {
        match value {
            AnyConfig::Fischer(inner) => Ok(inner),
            value => Err(value),
        }
    }
}

impl TryFrom<AnyConfig> for BronsteinConfig {
    type Error = AnyConfig;

    fn try_from(value: AnyConfig) -> (r: Result<BronsteinConfig, AnyConfig>) {
        match value {
            AnyConfig::Bronstein(inner) => Ok(inner),
            value => Err(value),
        }
    }
}

impl vstd::std_specs::convert::TryFromSpecImpl<AnyConfig> for BronsteinConfig {
    open spec fn obeys_try_from_spec() -> bool {
        true
    }

    open spec fn try_from_spec(value: AnyConfig) -> Result<BronsteinConfig, AnyConfig> {
        match value {
            AnyConfig::Bronstein(inner) => Ok(inner),
            value => Err(value),
        }
    }
}

impl TryFrom<AnyConfig> for ByoYomiConfig {
    type Error = AnyConfig;

    fn try_from(value: AnyConfig) -> (r: Result<ByoYomiConfig, AnyConfig>) {
        match value {
            AnyConfig::ByoYomi(inner) => Ok(inner),
            value => Err(value),
        }
    }
}

impl vstd::std_specs::convert::TryFromSpecImpl<AnyConfig> for ByoYomiConfig {
    open spec fn obeys_try_from_spec() -> bool {
        true
    }

    open spec fn try_from_spec(value: AnyConfig) -> Result<ByoYomiConfig, AnyConfig> {
        match value {
            AnyConfig::ByoYomi(inner) => Ok(inner),
            value => Err(value),
        }
    }
}

impl From<SimpleDelayClock> for AnyClock {
    fn from(value: SimpleDelayClock) -> (r: AnyClock) {
        AnyClock::SimpleDelay(value)
    }
}

impl vstd::std_specs::convert::FromSpecImpl<SimpleDelayClock> for AnyClock {
    open spec fn obeys_from_spec() -> bool {
        true
    }

    open spec fn from_spec(value: SimpleDelayClock) -> AnyClock {
        AnyClock::SimpleDelay(value)
    }
}

impl From<FischerClock> for AnyClock {
    fn from(value: FischerClock) -> (r: AnyClock) {
        AnyClock::Fischer(value)
    }
}

impl vstd::std_specs::convert::FromSpecImpl<FischerClock> for AnyClock {
    open spec fn obeys_from_spec() -> bool {
        true
    }

    open spec fn from_spec(value: FischerClock) -> AnyClock {
        AnyClock::Fischer(value)
    }
}

impl From<BronsteinClock> for AnyClock {
    fn from(value: BronsteinClock) -> (r: AnyClock) {
        AnyClock::Bronstein(value)
    }
}

impl vstd::std_specs::convert::FromSpecImpl<BronsteinClock> for AnyClock {
    open spec fn obeys_from_spec() -> bool {
        true
    }

    open spec fn from_spec(value: BronsteinClock) -> AnyClock {
        AnyClock::Bronstein(value)
    }
}

impl From<ByoYomiClock> for AnyClock {
    fn from(value: ByoYomiClock) -> (r: AnyClock) {
        AnyClock::ByoYomi(value)
    }
}

impl vstd::std_specs::convert::FromSpecImpl<ByoYomiClock> for AnyClock {
    open spec fn obeys_from_spec() -> bool {
        true
    }

    open spec fn from_spec(value: ByoYomiClock) -> AnyClock {
        AnyClock::ByoYomi(value)
    }
}

impl TryFrom<AnyClock> for SimpleDelayClock {
    type Error = AnyClock;

    fn try_from(value: AnyClock) -> (r: Result<SimpleDelayClock, AnyClock>) {
        match value {
            AnyClock::SimpleDelay(inner) => Ok(inner),
            value => Err(value),
        }
    }
}

impl vstd::std_specs::convert::TryFromSpecImpl<AnyClock> for SimpleDelayClock {
    open spec fn obeys_try_from_spec() -> bool {
        true
    }

    open spec fn try_from_spec(value: AnyClock) -> Result<SimpleDelayClock, AnyClock> {
        match value {
            AnyClock::SimpleDelay(inner) => Ok(inner),
            value => Err(value),
        }
    }
}

impl TryFrom<AnyClock> for FischerClock {
    type Error = AnyClock;

    fn try_from(value: AnyClock) -> (r: Result<FischerClock, AnyClock>) {
        match value {
            AnyClock::Fischer(inner) => Ok(inner),
            value => Err(value),
        }
    }
}

impl vstd::std_specs::convert::TryFromSpecImpl<AnyClock> for FischerClock {
    open spec fn obeys_try_from_spec() -> bool {
        true
    }

    open spec fn try_from_spec(value: AnyClock) -> Result<FischerClock, AnyClock> {
        match value {
            AnyClock::Fischer(inner) => Ok(inner),
            value => Err(value),
        }
    }
}

impl TryFrom<AnyClock> for BronsteinClock {
    type Error = AnyClock;

    fn try_from(value: AnyClock) -> (r: Result<BronsteinClock, AnyClock>) {
        match value {
            AnyClock::Bronstein(inner) => Ok(inner),
            value => Err(value),
        }
    }
}

impl vstd::std_specs::convert::TryFromSpecImpl<AnyClock> for BronsteinClock {
    open spec fn obeys_try_from_spec() -> bool {
        true
    }

    open spec fn try_from_spec(value: AnyClock) -> Result<BronsteinClock, AnyClock> {
        match value {
            AnyClock::Bronstein(inner) => Ok(inner),
            value => Err(value),
        }
    }
}

impl TryFrom<AnyClock> for ByoYomiClock {
    type Error = AnyClock;

    fn try_from(value: AnyClock) -> (r: Result<ByoYomiClock, AnyClock>) {
        match value {
            AnyClock::ByoYomi(inner) => Ok(inner),
            value => Err(value),
        }
    }
}

impl vstd::std_specs::convert::TryFromSpecImpl<AnyClock> for ByoYomiClock {
    open spec fn obeys_try_from_spec() -> bool {
        true
    }

    open spec fn try_from_spec(value: AnyClock) -> Result<ByoYomiClock, AnyClock> {
        match value {
            AnyClock::ByoYomi(inner) => Ok(inner),
            value => Err(value),
        }
    }
}

impl<T: Into<AnyConfig>> From<T> for AnyClock {
    fn from(value: T) -> (r: AnyClock) {
        AnyClock::new(value)
    }
}

impl<T: Into<AnyConfig>> vstd::std_specs::convert::FromSpecImpl<T> for AnyClock {
    open spec fn obeys_from_spec() -> bool {
        T::obeys_into_spec()
    }

    open spec fn from_spec(value: T) -> AnyClock {
        AnyClock::spec_new(value.into_spec())
    }
}

impl TimeControl for AnyClock {
    type Model = AnyModel;

    open spec fn model(&self) -> AnyModel {
        match self {
            AnyClock::SimpleDelay(c) => AnyModel::SimpleDelay(c@),
            AnyClock::Fischer(c) => AnyModel::Fischer(c@),
            AnyClock::Bronstein(c) => AnyModel::Bronstein(c@),
            AnyClock::ByoYomi(c) => AnyModel::ByoYomi(c@),
        }
    }

    open spec fn model_expired(m: AnyModel) -> bool {
        match m {
            AnyModel::SimpleDelay(x) => x.expired(),
            AnyModel::Fischer(x) => x.expired(),
            AnyModel::Bronstein(x) => x.expired(),
            AnyModel::ByoYomi(x) => x.expired(),
        }
    }

    open spec fn model_running(m: AnyModel) -> bool {
        match m {
            AnyModel::SimpleDelay(x) => x.running,
            AnyModel::Fischer(x) => x.running,
            AnyModel::Bronstein(x) => x.running,
            AnyModel::ByoYomi(x) => x.running,
        }
    }

    open spec fn model_max_remaining(m: AnyModel) -> nat {
        match m {
            AnyModel::SimpleDelay(x) => SimpleDelayClock::model_max_remaining(x),
            AnyModel::Fischer(x) => FischerClock::model_max_remaining(x),
            AnyModel::Bronstein(x) => BronsteinClock::model_max_remaining(x),
            AnyModel::ByoYomi(x) => ByoYomiClock::model_max_remaining(x),
        }
    }

    open spec fn max_remaining_fits(m: AnyModel) -> bool {
        match m {
            AnyModel::SimpleDelay(x) => SimpleDelayClock::max_remaining_fits(x),
            AnyModel::Fischer(x) => FischerClock::max_remaining_fits(x),
            AnyModel::Bronstein(x) => BronsteinClock::max_remaining_fits(x),
            AnyModel::ByoYomi(x) => ByoYomiClock::max_remaining_fits(x),
        }
    }

    open spec fn model_reset(m: AnyModel) -> AnyModel {
        match m {
            AnyModel::SimpleDelay(x) => AnyModel::SimpleDelay(SimpleDelayModel::initial(x.config)),
            AnyModel::Fischer(x) => AnyModel::Fischer(FischerModel::initial(x.config)),
            AnyModel::Bronstein(x) => AnyModel::Bronstein(BronsteinModel::initial(x.config)),
            AnyModel::ByoYomi(x) => AnyModel::ByoYomi(ByoYomiModel::initial(x.config)),
        }
    }

    open spec fn model_start(m: AnyModel) -> AnyModel {
        match m {
            AnyModel::SimpleDelay(x) => AnyModel::SimpleDelay(x.start()),
            AnyModel::Fischer(x) => AnyModel::Fischer(x.start()),
            AnyModel::Bronstein(x) => AnyModel::Bronstein(x.start()),
            AnyModel::ByoYomi(x) => AnyModel::ByoYomi(x.start()),
        }
    }

    open spec fn model_spend(m: AnyModel, elapsed: nat) -> AnyModel {
        match m {
            AnyModel::SimpleDelay(x) => AnyModel::SimpleDelay(x.spend(elapsed)),
            AnyModel::Fischer(x) => AnyModel::Fischer(x.spend(elapsed)),
            AnyModel::Bronstein(x) => AnyModel::Bronstein(x.spend(elapsed)),
            AnyModel::ByoYomi(x) => AnyModel::ByoYomi(x.spend(elapsed)),
        }
    }

    open spec fn spend_fits(m: AnyModel, elapsed: nat) -> bool {
        match m {
            AnyModel::SimpleDelay(x) => SimpleDelayClock::spend_fits(x, elapsed),
            AnyModel::Fischer(x) => FischerClock::spend_fits(x, elapsed),
            AnyModel::Bronstein(x) => BronsteinClock::spend_fits(x, elapsed),
            AnyModel::ByoYomi(x) => ByoYomiClock::spend_fits(x, elapsed),
        }
    }

    open spec fn model_end(m: AnyModel) -> AnyModel {
        match m {
            AnyModel::SimpleDelay(x) => AnyModel::SimpleDelay(x.end()),
            AnyModel::Fischer(x) => AnyModel::Fischer(x.end()),
            AnyModel::Bronstein(x) => AnyModel::Bronstein(x.end()),
            AnyModel::ByoYomi(x) => AnyModel::ByoYomi(x.end()),
        }
    }

    open spec fn end_fits(m: AnyModel) -> bool {
        match m {
            AnyModel::SimpleDelay(x) => SimpleDelayClock::end_fits(x),
            AnyModel::Fischer(x) => FischerClock::end_fits(x),
            AnyModel::Bronstein(x) => BronsteinClock::end_fits(x),
            AnyModel::ByoYomi(x) => ByoYomiClock::end_fits(x),
        }
    }

    fn reset(&mut self) {
        match self {
            AnyClock::SimpleDelay(clock) => clock.reset(),
            AnyClock::Fischer(clock) => clock.reset(),
            AnyClock::Bronstein(clock) => clock.reset(),
            AnyClock::ByoYomi(clock) => clock.reset(),
        }
    }

    fn is_expired(&self) -> (r: bool) {
        match self {
            AnyClock::SimpleDelay(clock) => clock.is_expired(),
            AnyClock::Fischer(clock) => clock.is_expired(),
            AnyClock::Bronstein(clock) => clock.is_expired(),
            AnyClock::ByoYomi(clock) => clock.is_expired(),
        }
    }

    fn max_remaining(&self) -> (r: Duration) {
        match self {
            AnyClock::SimpleDelay(clock) => clock.max_remaining(),
            AnyClock::Fischer(clock) => clock.max_remaining(),
            AnyClock::Bronstein(clock) => clock.max_remaining(),
            AnyClock::ByoYomi(clock) => clock.max_remaining(),
        }
    }

    fn turn_start(&mut self) {
        match self {
            AnyClock::SimpleDelay(clock) => clock.turn_start(),
            AnyClock::Fischer(clock) => clock.turn_start(),
            AnyClock::Bronstein(clock) => clock.turn_start(),
            AnyClock::ByoYomi(clock) => clock.turn_start(),
        }
    }

    fn turn_spend(&mut self, elapsed: Duration) -> (r: bool) {
        match self {
            AnyClock::SimpleDelay(clock) => clock.turn_spend(elapsed),
            AnyClock::Fischer(clock) => clock.turn_spend(elapsed),
            AnyClock::Bronstein(clock) => clock.turn_spend(elapsed),
            AnyClock::ByoYomi(clock) => clock.turn_spend(elapsed),
        }
    }

    fn turn_end(&mut self) {
        match self {
            AnyClock::SimpleDelay(clock) => clock.turn_end(),
            AnyClock::Fischer(clock) => clock.turn_end(),
            AnyClock::Bronstein(clock) => clock.turn_end(),
            AnyClock::ByoYomi(clock) => clock.turn_end(),
        }
    }

    fn complete_turn(&mut self, elapsed: Duration) -> (r: bool) {
        match self {
            AnyClock::SimpleDelay(clock) => clock.complete_turn(elapsed),
            AnyClock::Fischer(clock) => clock.complete_turn(elapsed),
            AnyClock::Bronstein(clock) => clock.complete_turn(elapsed),
            AnyClock::ByoYomi(clock) => clock.complete_turn(elapsed),
        }
    }
}

} // verus!
