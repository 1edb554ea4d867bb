//! The rule that hands a container to a configured script.
use vstd::prelude::*;
use crate::config::Config;
use crate::models::MediaContainer;
use super::TransformError;

verus! {

/// The container as a script sees it.
#[derive(Clone, Copy, Debug, Default)]
pub struct ScriptingMediaContainer {}

/// The rule that runs the configured test script on a container.
#[derive(Clone, Copy, Debug, Default)]
pub struct MediaContainerScriptingTransform;

impl MediaContainerScriptingTransform {
    /// Without a configured script the container stays as it is; scripts
    /// are not run, so a configured one makes the rule fail.
    pub fn transform_mediacontainer(&self, item: MediaContainer, config: &Config) -> (r: Result<MediaContainer, TransformError>)
        ensures
            config.test_script is None ==> r == Ok::<MediaContainer, TransformError>(item),
            config.test_script is Some ==> r == Err::<MediaContainer, TransformError>(TransformError::ScriptUnsupported),
    {
        match &config.test_script {
            None => Ok(item),
            Some(_) => Err(TransformError::ScriptUnsupported),
        }
    }
}

} // verus!
