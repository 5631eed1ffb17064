//! Builder-style configuration of the windowing system, validated once by
//! [`WindowingSystemBuilder::build`].
use vstd::prelude::*;
use crate::config::{Anchor, KeyboardInteractivity, Layer, Margin, WindowConfig, is_default_config};
use crate::errors::{ConfigurationError, InputError, LayerShikaError};
use crate::geometry::ScaleFactor;

verus! {

pub struct WindowingSystemBuilder {
    config: WindowConfig,
}

impl WindowingSystemBuilder {
    pub closed spec fn spec_config(&self) -> WindowConfig {
        self.config
    }

    /// A builder holding the default configuration.
    pub fn new() -> (r: WindowingSystemBuilder)
        ensures
            is_default_config(r.spec_config()),
    {
        WindowingSystemBuilder { config: WindowConfig::default() }
    }

    pub fn with_height(self, height: u32) -> (r: WindowingSystemBuilder)
        ensures
            r.spec_config() == (WindowConfig { height, ..self.spec_config() }),
    {
        let mut config = self.config;
        config.height = height;
        WindowingSystemBuilder { config }
    }

    pub fn with_layer(self, layer: Layer) -> (r: WindowingSystemBuilder)
        ensures
            r.spec_config() == (WindowConfig { layer, ..self.spec_config() }),
    {
        let mut config = self.config;
        config.layer = layer;
        WindowingSystemBuilder { config }
    }

    pub fn with_margin(self, top: i32, right: i32, bottom: i32, left: i32) -> (r:
        WindowingSystemBuilder)
        ensures
            r.spec_config() == (WindowConfig {
                margin: Margin { top, right, bottom, left },
                ..self.spec_config()
            }),
    {
        let mut config = self.config;
        config.margin = Margin { top, right, bottom, left };
        WindowingSystemBuilder { config }
    }

    pub fn with_anchor(self, anchor: Anchor) -> (r: WindowingSystemBuilder)
        ensures
            r.spec_config() == (WindowConfig { anchor, ..self.spec_config() }),
    {
        let mut config = self.config;
        config.anchor = anchor;
        WindowingSystemBuilder { config }
    }

    pub fn with_keyboard_interactivity(self, interactivity: KeyboardInteractivity) -> (r:
        WindowingSystemBuilder)
        ensures
            r.spec_config() == (WindowConfig {
                keyboard_interactivity: interactivity,
                ..self.spec_config()
            }),
    {
        let mut config = self.config;
        config.keyboard_interactivity = interactivity;
        WindowingSystemBuilder { config }
    }

    pub fn with_exclusive_zone(self, zone: i32) -> (r: WindowingSystemBuilder)
        ensures
            r.spec_config() == (WindowConfig { exclusive_zone: zone, ..self.spec_config() }),
    {
        let mut config = self.config;
        config.exclusive_zone = zone;
        WindowingSystemBuilder { config }
    }

    pub fn with_namespace(self, namespace: String) -> (r: WindowingSystemBuilder)
        ensures
            r.spec_config() == (WindowConfig { namespace, ..self.spec_config() }),
    {
        let mut config = self.config;
        config.namespace = namespace;
        WindowingSystemBuilder { config }
    }

    pub fn with_scale_factor(self, scale_factor: ScaleFactor) -> (r: WindowingSystemBuilder)
        ensures
            r.spec_config() == (WindowConfig { scale_factor, ..self.spec_config() }),
    {
        let mut config = self.config;
        config.scale_factor = scale_factor;
        WindowingSystemBuilder { config }
    }

    pub fn with_component_definition(
        self,
        component: slint_interpreter::ComponentDefinition,
    ) -> (r: WindowingSystemBuilder)
        ensures
            r.spec_config() == (WindowConfig {
                component_definition: Some(component),
                ..self.spec_config()
            }),
    {
        let mut config = self.config;
        config.component_definition = Some(component);
        WindowingSystemBuilder { config }
    }

    /// The validated configuration: a root component is required and the
    /// scale factor must be positive.
    pub fn build(self) -> (r: Result<WindowConfig, LayerShikaError>)
        ensures
            self.spec_config().component_definition.is_none() ==> r matches Err(
                LayerShikaError::WindowConfiguration(
                    ConfigurationError::ComponentDefinitionRequired,
                ),
            ),
            self.spec_config().component_definition.is_some() && !self.spec_config().scale_factor.wf()
                ==> r matches Err(
                LayerShikaError::InvalidInput(InputError::ScaleFactorNotPositive),
            ),
            self.spec_config().component_definition.is_some() && self.spec_config().scale_factor.wf()
                ==> r == Ok::<WindowConfig, LayerShikaError>(self.spec_config()),
    {
        if self.config.component_definition.is_none() {
            Err(
                LayerShikaError::WindowConfiguration(
                    ConfigurationError::ComponentDefinitionRequired,
                ),
            )
        } else if self.config.scale_factor.numerator == 0 {
            Err(LayerShikaError::InvalidInput(InputError::ScaleFactorNotPositive))
        } else {
            Ok(self.config)
        }
    }
}

impl Default for WindowingSystemBuilder {
    fn default() -> (r: WindowingSystemBuilder)
        ensures
            is_default_config(r.spec_config()),
    {
        WindowingSystemBuilder::new()
    }
}

} // verus!
