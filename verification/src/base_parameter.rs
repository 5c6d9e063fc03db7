//! Parameters shared by every configuration: output format, parallelization,
//! effort and theme.

pub mod effort;
pub mod parallelization;

use vstd::prelude::*;
use crate::output_format::OutputFormat;
use crate::theme::Theme;
use effort::Effort;
use parallelization::Parallelization;

verus! {

/// Access to the base parameters of a configuration.
pub trait BaseConfiguration {
    fn output_format(&self) -> &OutputFormat;

    fn set_output_format(&mut self, value: OutputFormat);

    fn parallelization(&self) -> &Parallelization;

    fn set_parallelization(&mut self, value: Parallelization);

    fn effort(&self) -> &Effort;

    fn set_effort(&mut self, value: Effort);

    fn theme(&self) -> &Theme;

    fn set_theme(&mut self, value: Theme);
}

/// The base parameters of a configuration.
#[derive(Debug, Clone, Copy, PartialEq, Eq)]
pub struct BaseConfigurationParameters {
    pub output_format: OutputFormat,
    pub parallelization: Parallelization,
    pub effort: Effort,
    pub theme: Theme,
}

impl Default for BaseConfigurationParameters {
    fn default() -> (r: Self)
        ensures
            r == (BaseConfigurationParameters {
                output_format: OutputFormat::Html,
                parallelization: Parallelization::No,
                effort: Effort::Standard,
                theme: Theme::Light,
            }),
    {
        BaseConfigurationParameters {
            output_format: OutputFormat::Html,
            parallelization: Parallelization::No,
            effort: Effort::Standard,
            theme: Theme::Light,
        }
    }
}

impl BaseConfiguration for BaseConfigurationParameters {
    fn output_format(&self) -> (r: &OutputFormat)
        ensures
            *r == self.output_format,
    {
        &self.output_format
    }

    fn set_output_format(&mut self, value: OutputFormat)
        ensures
            *final(self) == (BaseConfigurationParameters { output_format: value, ..*old(self) }),
    {
        self.output_format = value;
    }

    fn parallelization(&self) -> (r: &Parallelization)
        ensures
            *r == self.parallelization,
    {
        &self.parallelization
    }

    fn set_parallelization(&mut self, value: Parallelization)
        ensures
            *final(self) == (BaseConfigurationParameters { parallelization: value, ..*old(self) }),
    {
        self.parallelization = value;
    }

    fn effort(&self) -> (r: &Effort)
        ensures
            *r == self.effort,
    {
        &self.effort
    }

    fn set_effort(&mut self, value: Effort)
        ensures
            *final(self) == (BaseConfigurationParameters { effort: value, ..*old(self) }),
    {
        self.effort = value;
    }

    fn theme(&self) -> (r: &Theme)
        ensures
            *r == self.theme,
    {
        &self.theme
    }

    fn set_theme(&mut self, value: Theme)
        ensures
            *final(self) == (BaseConfigurationParameters { theme: value, ..*old(self) }),
    {
        self.theme = value;
    }
}

} // verus!
