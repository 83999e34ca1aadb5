use stable_diffusion::trainer::Trainer;
use stable_diffusion::trainer::data_set::ImageDataSet;
use stable_diffusion::trainer::data_set::TrainingDataSet;
use stable_diffusion::trainer::environment::Environment;
use stable_diffusion::trainer::model::Checkpoint;
use stable_diffusion::trainer::model::Model;
use stable_diffusion::trainer::model_file_format::ModelFileFormat;
use stable_diffusion::trainer::optimizer::Optimizer;
use stable_diffusion::trainer::output::Output;
use stable_diffusion::trainer::precision::FloatPrecision;
use stable_diffusion::trainer::scheduler::LearningRateScheduler;
use stable_diffusion::trainer::training::Bucketing;
use stable_diffusion::trainer::training::Prompt;
use stable_diffusion::trainer::variable::Update;
use stable_diffusion::trainer::variable::Variable;
use stable_diffusion::trainer::decimal_string;

#[test]
fn environment_paths() {
    let env = Environment::new().with_kohya_ss("/opt/kohya_ss");
    assert_eq!(env.kohya_ss(), "/opt/kohya_ss");
    assert_eq!(env.sd_scripts(), "/opt/kohya_ss/sd-scripts");
    assert_eq!(env.binary_path(), "/opt/kohya_ss/.venv/bin");
    assert_eq!(env.python_executable_path(), "/opt/kohya_ss/.venv/bin/python");
}

#[test]
fn trainer_holds_environment() {
    let trainer = Trainer::new();
    assert_eq!(trainer.environment.kohya_ss(), "");
    let trainer = trainer.with_environment(Environment::new().with_kohya_ss("/srv/kohya"));
    assert_eq!(trainer.environment.kohya_ss(), "/srv/kohya");
}

#[test]
fn trainer_staging_directories() {
    assert_eq!(Trainer::image_dir("/tmp/run"), "/tmp/run/img");
    assert_eq!(Trainer::reg_dir("/tmp/run"), "/tmp/run/reg");
}

#[test]
fn decimal_formatting() {
    assert_eq!(decimal_string(0), "0");
    assert_eq!(decimal_string(7), "7");
    assert_eq!(decimal_string(40), "40");
    assert_eq!(decimal_string(1600), "1600");
    assert_eq!(decimal_string(98765), "98765");
}

#[test]
fn subject_and_class_staging_directories() {
    assert_eq!(
        Trainer::subject_dir("/tmp/run", 40, "sks", "person"),
        "/tmp/run/img/40_sks person"
    );
    assert_eq!(Trainer::class_dir("/tmp/run", 1, "person"), "/tmp/run/reg/1_person");
}

#[test]
fn image_data_set_paths() {
    let mut set = ImageDataSet::from_dir("images/subject");
    assert_eq!(set.path(), "images/subject");
    set.set_path("other/place".to_owned());
    assert_eq!(set.path(), "other/place");
}

#[test]
fn image_data_set_update_ignores_empty_base() {
    let mut set = ImageDataSet::from_dir("kept");
    set.update(ImageDataSet::from_dir(""));
    assert_eq!(set.path(), "kept");
    set.update(ImageDataSet::from_dir("replaced"));
    assert_eq!(set.path(), "replaced");
}

#[test]
fn training_data_set_regularization() {
    let set = TrainingDataSet::new(ImageDataSet::from_dir("train"));
    assert!(set.regularization.is_none());
    let set = set.with_regularization_images(ImageDataSet::from_dir("reg"));
    assert_eq!(set.training.path(), "train");
    assert_eq!(set.regularization.as_ref().unwrap().path(), "reg");
}

#[test]
fn checkpoint_round_trip() {
    let c = Checkpoint::new("runwayml/stable-diffusion-v1-5");
    assert_eq!(c.as_str(), "runwayml/stable-diffusion-v1-5");
}

#[test]
fn model_facts() {
    let xl = Model::StableDiffusionXL(None);
    assert_eq!(xl.name(), "Stable Diffusion XL");
    assert_eq!(xl.resolution(), (1024, 1024));
    assert_eq!(xl.checkpoint().as_str(), "stabilityai/stable-diffusion-xl-base-1.0");
    let v15 = Model::StableDiffusion1_5(None);
    assert_eq!(v15.name(), "Stable Diffusion 1.5");
    assert_eq!(v15.resolution(), (512, 512));
    assert_eq!(v15.checkpoint().as_str(), "runwayml/stable-diffusion-v1-5");
    let pinned = Model::StableDiffusion1_5(Some(Checkpoint::new("local/checkpoint")));
    assert_eq!(pinned.checkpoint().as_str(), "local/checkpoint");
    assert!(matches!(Model::default(), Model::StableDiffusionXL(None)));
}

#[test]
fn optimizer_names() {
    assert_eq!(Optimizer::AdamW.as_str(), "AdamW");
    assert_eq!(Optimizer::AdamW8bit.as_str(), "AdamW8bit");
    assert_eq!(Optimizer::Adafactor.as_str(), "Adafactor");
    assert_eq!(Optimizer::Prodigy.as_str(), "Prodigy");
    assert_eq!(Optimizer::SGDNesterov8bit.as_str(), "SGDNesterov8bit");
    assert!(matches!(Optimizer::default(), Optimizer::AdamW));
}

#[test]
fn scheduler_names() {
    assert_eq!(LearningRateScheduler::Cosine.as_str(), "cosine");
    assert_eq!(LearningRateScheduler::ConstantWithWarmup.as_str(), "constant_with_warmup");
    assert_eq!(LearningRateScheduler::CosineWithRestarts.as_str(), "cosine_with_restarts");
    assert!(matches!(LearningRateScheduler::default(), LearningRateScheduler::Cosine));
}

#[test]
fn precision_and_format_names() {
    assert_eq!(FloatPrecision::F16.as_str(), "fp16");
    assert_eq!(FloatPrecision::BF16.as_str(), "bf16");
    assert_eq!(FloatPrecision::F32.as_str(), "fp32");
    assert!(matches!(FloatPrecision::default(), FloatPrecision::F16));
    assert_eq!(ModelFileFormat::Safetensors.as_str(), "safetensors");
    assert!(matches!(ModelFileFormat::default(), ModelFileFormat::Safetensors));
}

#[test]
fn outputs_and_prompt() {
    let simple = Output::new("model", "out/dir");
    assert_eq!(simple.name, "model");
    assert_eq!(simple.directory, "out/dir");
    let rich = stable_diffusion::trainer::training::Output::new("model", "out/dir");
    assert_eq!(rich.save_every_n_epochs, 1);
    assert!(matches!(rich.save_model_as, ModelFileFormat::Safetensors));
    assert!(matches!(rich.save_precision, FloatPrecision::F16));
    let prompt = Prompt::new("sks", "person");
    assert_eq!(prompt.instance, "sks");
    assert_eq!(prompt.class, "person");
}

#[test]
fn bucketing_defaults() {
    let b = Bucketing::default();
    assert_eq!(b.min_resolution, 512);
    assert_eq!(b.max_resolution, 1024);
    assert_eq!(b.resolution_steps, 64);
}

#[test]
fn variable_resolution() {
    let v: Variable<usize> = Variable::Resolved(4);
    assert_eq!(v.resolved(), Some(&4));
    let r: Variable<usize> = Variable::Reference("{batch_size}".to_owned());
    assert!(r.resolved().is_none());
}

#[test]
fn variable_update_takes_base() {
    let mut v: Variable<usize> = Variable::Resolved(4);
    v.update(Variable::Resolved(8));
    assert_eq!(v.resolved(), Some(&8));
    let mut o: Option<Variable<usize>> = None;
    o.update(Some(Variable::Resolved(2)));
    assert_eq!(o.as_ref().unwrap().resolved(), Some(&2));
    let mut list: Vec<u32> = vec![1, 2];
    list.update(vec![3]);
    assert_eq!(list, vec![1, 2, 3]);
}
