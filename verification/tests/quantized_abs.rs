use burn::backend::NdArray;
use burn::tensor::ops::FloatElem;
use burn::tensor::quantization::{QuantizationMode, QuantizationScheme, QuantizationType};
use burn::tensor::{Tensor, TensorData, Tolerance};

type TestBackend = NdArray<f32>;
type FT = FloatElem<TestBackend>;

/// Quantizes floating point data to int8 with per-tensor symmetric quantization.
fn int8<const D: usize>(floats: TensorData) -> Tensor<TestBackend, D> {
    Tensor::from_floats(floats, &Default::default()).quantize_dynamic(
        &QuantizationScheme::PerTensor(QuantizationMode::Symmetric, QuantizationType::QInt8),
    )
}

#[test]
fn should_support_abs_ops() {
    let tensor = int8::<2>(TensorData::from([[0.0, -1.0, 2.0], [3.0, 4.0, -5.0]]));

    let output = tensor.abs();

    // Precision 1 to approximate de/quantization errors
    output.dequantize().into_data().assert_approx_eq::<FT>(
        &TensorData::from([[0.0, 1.0, 2.0], [3.0, 4.0, 5.0]]),
        Tolerance::absolute(1e-1),
    );
}
